//! Paths of the shared-memory planes, and the order between them.

use std::path::PathBuf;
use vstd::prelude::*;

verus! {

/// How one path stands to another in the platform's path order.
#[derive(Debug, Clone, Copy, PartialEq, Eq, Structural)]
pub enum PathOrder {
    /// It comes before the other.
    Before,
    /// The two spell the same path.
    Same,
    /// It comes after the other.
    After,
}

/// `std::path::PathBuf`, which is opaque here; [`path_bytes`] names what it
/// holds.
#[verifier::external_type_specification]
#[verifier::external_body]
pub struct ExPathBuf(std::path::PathBuf);

/// The bytes of a path, in the platform's encoding of it.
pub uninterp spec fn path_bytes(path: std::path::PathBuf) -> Seq<u8>;

/// How two paths, given by their bytes, stand to each other in the order of
/// `std::path::PathBuf`.
pub uninterp spec fn path_order(left: Seq<u8>, right: Seq<u8>) -> PathOrder;

/// The order seen from the other side.
pub open spec fn reversed(order: PathOrder) -> PathOrder {
    match order {
        PathOrder::Before => PathOrder::After,
        PathOrder::Same => PathOrder::Same,
        PathOrder::After => PathOrder::Before,
    }
}

/// Calls `<std::path::PathBuf as Ord>::cmp`, and gives its result the name
/// [`path_order`]. As for every `Ord`, comparing the other way round reverses
/// the result, and a path is the same as itself. How the platform splits a path
/// into components is left to the name.
#[verifier::external_body]
fn compare_paths(left: &PathBuf, right: &PathBuf) -> (order: PathOrder)
    ensures
        order == path_order(path_bytes(*left), path_bytes(*right)),
        path_order(path_bytes(*right), path_bytes(*left)) == reversed(order),
        path_bytes(*left) == path_bytes(*right) ==> order == PathOrder::Same,
{
    match left.cmp(right) {
        std::cmp::Ordering::Less => PathOrder::Before,
        std::cmp::Ordering::Equal => PathOrder::Same,
        std::cmp::Ordering::Greater => PathOrder::After,
    }
}

/// Calls `<std::path::PathBuf as Clone>::clone`, which duplicates the path: the
/// copy holds the same bytes.
#[verifier::external_body]
fn copy_path(path: &PathBuf) -> (copy: PathBuf)
    ensures
        path_bytes(copy) == path_bytes(*path),
{
    path.clone()
}

/// Path of one shared-memory plane.
pub struct ShmPath {
    path: PathBuf,
}

impl View for ShmPath {
    type V = Seq<u8>;

    closed spec fn view(&self) -> Seq<u8> {
        path_bytes(self.path)
    }
}

impl Clone for ShmPath {
    fn clone(&self) -> (copy: Self)
        ensures
            copy@ == self@,
    {
        ShmPath { path: copy_path(&self.path) }
    }
}

impl ShmPath {
    /// Names the plane at `path`.
    pub fn new(path: PathBuf) -> (plane: Self)
        ensures
            plane@ == path_bytes(path),
    {
        ShmPath { path }
    }

    /// Returns the path as it was given.
    pub fn as_path(&self) -> (path: &PathBuf)
        ensures
            path_bytes(*path) == self@,
    {
        &self.path
    }

    /// Compares two paths in the platform's path order.
    pub fn compare(&self, other: &Self) -> (order: PathOrder)
        ensures
            order == path_order(self@, other@),
            path_order(other@, self@) == reversed(order),
            self@ == other@ ==> order == PathOrder::Same,
    {
        compare_paths(&self.path, &other.path)
    }
}

/// The order in which the leases of two planes are taken, the lower path first:
/// `order` is how `left` stands to `right`.
pub open spec fn lease_order(order: PathOrder, left: ShmPath, right: ShmPath) -> (
    ShmPath,
    ShmPath,
) {
    if order == PathOrder::After {
        (right, left)
    } else {
        (left, right)
    }
}

/// Arranges two planes whose paths stand to each other as `order` says.
pub fn arrange_leases<'a>(order: PathOrder, left: &'a ShmPath, right: &'a ShmPath) -> (arranged: (
    &'a ShmPath,
    &'a ShmPath,
))
    ensures
        (*arranged.0, *arranged.1) == lease_order(order, *left, *right),
{
    match order {
        PathOrder::Before | PathOrder::Same => (left, right),
        PathOrder::After => (right, left),
    }
}

/// Puts two planes in the order in which their leases are taken. The first
/// never comes after the second.
pub fn order_leases<'a>(left: &'a ShmPath, right: &'a ShmPath) -> (arranged: (
    &'a ShmPath,
    &'a ShmPath,
))
    ensures
        (*arranged.0, *arranged.1) == lease_order(path_order(left@, right@), *left, *right),
        path_order(arranged.0@, arranged.1@) != PathOrder::After,
        path_order(right@, left@) == reversed(path_order(left@, right@)),
{
    arrange_leases(left.compare(right), left, right)
}

/// Two different planes are put in the same order whichever of them is named
/// first.
pub proof fn law_lease_order_ignores_roles(order: PathOrder, left: ShmPath, right: ShmPath)
    requires
        order != PathOrder::Same,
    ensures
        lease_order(reversed(order), right, left) == lease_order(order, left, right),
{
}

} // verus!
