//! Numbers made of two 32-bit halves: identifiers of proxies, and keys of peers.

use vstd::prelude::*;

verus! {

/// The number with `high` and `low` as its halves.
pub open spec fn join_halves(high: u32, low: u32) -> u64 {
    (high * 0x1_0000_0000 + low) as u64
}

/// The lower half of `n`.
pub open spec fn low_half(n: u64) -> u32 {
    (n % 0x1_0000_0000) as u32
}

/// The upper half of `n`.
pub open spec fn high_half(n: u64) -> u32 {
    (n / 0x1_0000_0000) as u32
}

/// The number with `high` and `low` as its halves.
pub fn join(high: u32, low: u32) -> (n: u64)
    ensures
        n == join_halves(high, low),
{
    (high as u64) * 0x1_0000_0000 + low as u64
}

/// The lower half of `n`.
pub fn low(n: u64) -> (half: u32)
    ensures
        half == low_half(n),
{
    (n % 0x1_0000_0000) as u32
}

/// The identifier of the datagram proxy that was the `n`th to be opened. The upper
/// half of `n` is dropped.
pub open spec fn dgram_id_of(n: u64) -> u64 {
    join_halves(low_half(n), 0)
}

/// The identifier of the datagram proxy that was the `n`th to be opened.
pub fn dgram_id(n: u64) -> (id: u64)
    ensures
        id == dgram_id_of(n),
{
    join(low(n), 0)
}

/// A number is known by its halves, and its halves by the number.
pub proof fn halves_are_kept(high: u32, low: u32)
    ensures
        high_half(join_halves(high, low)) == high,
        low_half(join_halves(high, low)) == low,
{
}

/// Datagram proxies have identifiers of their own: none is that of a stream
/// between a guest port and a host port other than zero.
pub proof fn dgram_ids_are_apart(n: u64, guest_port: u32, host_port: u32)
    requires
        host_port != 0,
    ensures
        dgram_id_of(n) != join_halves(guest_port, host_port),
{
    halves_are_kept(guest_port, host_port);
    halves_are_kept(low_half(n), 0);
}

/// The first proxies to be opened have identifiers that are not zero, end in zero, and
/// differ from one another, as long as their number fits in 32 bits.
pub proof fn dgram_ids_are_own(m: u64, n: u64)
    requires
        0 < m < n < 0x1_0000_0000,
    ensures
        dgram_id_of(m) != dgram_id_of(n),
        dgram_id_of(n) != 0,
        low_half(dgram_id_of(n)) == 0,
{
    halves_are_kept(low_half(m), 0);
    halves_are_kept(low_half(n), 0);
}

/// Streams between different ports have different identifiers.
pub proof fn stream_ids_are_apart(guest_1: u32, host_1: u32, guest_2: u32, host_2: u32)
    requires
        join_halves(guest_1, host_1) == join_halves(guest_2, host_2),
    ensures
        guest_1 == guest_2,
        host_1 == host_2,
{
    halves_are_kept(guest_1, host_1);
    halves_are_kept(guest_2, host_2);
}

/// The upper half of a number counts in units of two to the 32nd. The identifier of the
/// `n`th datagram proxy has the lower half of `n` there, and zero below.
pub proof fn upper_halves_count_in_units(high: u32, low: u32, n: u64)
    ensures
        join_halves(high, low) == 4294967296 * high + low,
        n == 4294967296 * high_half(n) + low_half(n),
        dgram_id_of(n) == 4294967296 * (n % 4294967296),
        forall|id: u64| #[trigger] call_ensures(join, (high, low), id) ==> id == 4294967296 * high
            + low,
        forall|half: u32| #[trigger] call_ensures(self::low, (n,), half) ==> half == n % 4294967296,
        forall|id: u64| #[trigger] call_ensures(dgram_id, (n,), id) ==> id == 4294967296 * (n
            % 4294967296),
{
}

} // verus!
