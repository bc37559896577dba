//! Serial numbers of asynchronous requests.
use vstd::prelude::*;

verus! {

/// How many requests there are before a serial comes again.
pub open spec fn serial_period() -> int {
    0x1_0000_0000_0000_0000
}

/// The serial that the next request gets.
#[derive(Debug)]
pub struct SerialCounter {
    next: u64,
}

/// A unique identifier of an asynchronous request.
///
/// A program may keep a list of serials with some work for each, and look the
/// work up again when the request is done.
#[derive(Debug, Clone, Copy, PartialEq, Eq, Structural)]
pub struct AsyncRequestSerial {
    serial: u64,
}

impl View for SerialCounter {
    type V = u64;

    closed spec fn view(&self) -> u64 {
        self.next
    }
}

impl View for AsyncRequestSerial {
    type V = u64;

    closed spec fn view(&self) -> u64 {
        self.serial
    }
}

impl SerialCounter {
    /// A counter that no request has been numbered by.
    pub fn new() -> (counter: Self)
        ensures
            counter@ == 0,
    {
        SerialCounter { next: 0 }
    }
}

impl AsyncRequestSerial {
    /// The serial of a new request. The counter wraps around: only a program
    /// that makes more than `u64::MAX` requests sees a serial again.
    pub fn get(counter: &mut SerialCounter) -> (request: Self)
        ensures
            request@ == old(counter)@,
            final(counter)@ == after_request(old(counter)@ as int),
            0 <= request@ < serial_period(),
            0 <= final(counter)@ < serial_period(),
    {
        let serial: u64 = counter.next;
        counter.next = serial.wrapping_add(1);
        AsyncRequestSerial { serial }
    }
}

/// What the counter holds after one request.
pub open spec fn after_request(counter: int) -> int {
    (counter + 1) % serial_period()
}

/// What the counter holds after `requests` requests, which is also the serial
/// that the request after them gets.
pub open spec fn after_requests(counter: int, requests: nat) -> int
    decreases requests,
{
    if requests == 0 {
        counter
    } else {
        after_request(after_requests(counter, (requests - 1) as nat))
    }
}

/// The counter counts requests modulo its period.
pub proof fn law_serials_count_requests(counter: int, requests: nat)
    requires
        0 <= counter < serial_period(),
    ensures
        after_requests(counter, requests) == (counter + requests) % serial_period(),
    decreases requests,
{
    if requests > 0 {
        law_serials_count_requests(counter, (requests - 1) as nat);
    }
}

/// Two requests get the same serial if and only if a multiple of the period
/// lies between them. In particular, no two of `u64::MAX + 1` requests in a
/// row share one.
pub proof fn law_serials_are_unique(counter: int, first: nat, second: nat)
    requires
        0 <= counter < serial_period(),
        first <= second,
    ensures
        after_requests(counter, first) == after_requests(counter, second) <==> (second - first)
            % serial_period() == 0,
        first < second < first + serial_period() ==> after_requests(counter, first)
            != after_requests(counter, second),
{
    law_serials_count_requests(counter, first);
    law_serials_count_requests(counter, second);
}

/// A request is known by its number: two requests are the same if and only if
/// their numbers are.
pub proof fn law_serials_identify_requests(one: AsyncRequestSerial, other: AsyncRequestSerial)
    ensures
        one == other <==> one@ == other@,
{
}

} // verus!
