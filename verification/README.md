# aether_live_state

A verified library for reading live automation state out of shared memory.

* A *read topology generation* pairs a point plane with a channel-health plane.
  It exists only if the two planes are distinct and each client expects the
  layout of its manifest. Everything that is done with the physical planes goes
  through a session that records it, and the contracts fix the record: both
  leases, the lower path first, then both layout checks, then the publication,
  and then the leases are given back. The first refusal ends it, and a refused
  candidate leaves the published generation in place. A handle has one owner and
  loads what was published last, or is shared and loads only generations that it
  was made to admit.
* A *rule execution* captures one topology publication before its first read.
  After the topology has moved on, its reads return nothing. It hands out the
  fence it captured, for the commands that are derived from it.
* A *routing snapshot* resolves logical instance points to physical channel
  points: measurements to measured classes only, outputs to output classes only,
  a discrete route before an analogue one.

`src/` is the library; every contract in it is proved by Verus. It trusts the
order and the copy of `std::path::PathBuf`, and the three operations of
`arc_swap::ArcSwap` that the topology handle uses. What the physical planes
answer is never assumed: access to them is a parameter, and the contracts say
what is asked of it and what becomes of each reply.

`app/` holds the in-process live state behind a lock, and the debug formatting.
