//! Event numbers, aggregate versions and the signed column they are stored in.

use vstd::prelude::*;

verus! {

/// The number of an event within the stream of one aggregate. The first event of a stream has
/// number one; there is no event zero.
#[derive(Clone, Copy, Debug, PartialEq, Eq, PartialOrd, Ord, Hash, Structural)]
pub struct EventNumber {
    number: u64,
}

impl View for EventNumber {
    type V = nat;

    closed spec fn view(&self) -> nat {
        self.number as nat
    }
}

impl EventNumber {
    #[verifier::type_invariant]
    spec fn nonzero(self) -> bool {
        self.number != 0
    }

    /// The event number that has the value `n`, for `1 <= n <= u64::MAX`.
    pub closed spec fn of(n: nat) -> EventNumber {
        EventNumber { number: n as u64 }
    }

    /// Creates an event number. There is none for zero.
    pub fn new(number: u64) -> (result: Option<EventNumber>)
        ensures
            result is None <==> number == 0,
            number != 0 ==> result == Some(EventNumber::of(number as nat)),
            number != 0 ==> result.unwrap()@ == number,
    {
        if number == 0 {
            None
        } else {
            Some(EventNumber { number })
        }
    }

    /// The number as a plain integer.
    pub fn get(self) -> (number: u64)
        ensures
            number == self@,
            number > 0,
            self == EventNumber::of(number as nat),
    {
        proof {
            use_type_invariant(self);
        }
        self.number
    }

    /// Moves on to the number of the next event.
    pub fn incr(&mut self)
        requires
            old(self)@ < u64::MAX,
        ensures
            final(self)@ == old(self)@ + 1,
    {
        self.number = self.number + 1;
    }
}

/// Two event numbers with the same value are the same event number.
pub proof fn law_event_number_is_its_value(a: EventNumber, b: EventNumber)
    ensures
        a@ == b@ <==> a == b,
{
}

/// The version of an aggregate: the number of the last event that was recorded for it.
#[derive(Clone, Copy, Debug, PartialEq, Eq, PartialOrd, Ord, Hash, Structural)]
pub enum Version {
    /// No event has been recorded.
    Initial,
    /// The number of the last event.
    Number(EventNumber),
}

impl View for Version {
    type V = nat;

    open spec fn view(&self) -> nat {
        match self {
            Version::Initial => 0,
            Version::Number(number) => number@,
        }
    }
}

impl Version {
    /// The version that has the value `n`, for `n <= u64::MAX`.
    pub open spec fn of(n: nat) -> Version {
        if n == 0 {
            Version::Initial
        } else {
            Version::Number(EventNumber::of(n))
        }
    }

    /// Creates a version: zero is the initial version, every other number that of an event.
    pub fn new(number: u64) -> (version: Version)
        ensures
            version@ == number,
            version == Version::of(number as nat),
    {
        match EventNumber::new(number) {
            Some(event) => Version::Number(event),
            None => Version::Initial,
        }
    }

    /// The version as a plain integer, zero for the initial version.
    pub fn get(self) -> (number: u64)
        ensures
            number == self@,
            self == Version::of(number as nat),
    {
        match self {
            Version::Initial => 0,
            Version::Number(event) => event.get(),
        }
    }

    /// The number that the next event of the aggregate gets.
    pub fn next_event(self) -> (number: EventNumber)
        requires
            self@ < u64::MAX,
        ensures
            number@ == self@ + 1,
    {
        match self {
            Version::Initial => EventNumber { number: 1 },
            Version::Number(event) => {
                let mut next = event;
                next.incr();
                next
            },
        }
    }

    /// Moves on to the version after one more event.
    pub fn incr(&mut self)
        requires
            old(self)@ < u64::MAX,
        ensures
            final(self)@ == old(self)@ + 1,
            *final(self) is Number,
    {
        *self = Version::Number(self.next_event());
    }
}

impl Default for Version {
    /// The initial version.
    fn default() -> (version: Version)
        ensures
            version == Version::Initial,
            version@ == 0,
    {
        Version::Initial
    }
}

/// The event number and the version that have a given value have that value.
pub proof fn law_numbers_have_their_values(n: nat)
    requires
        n <= u64::MAX,
    ensures
        n > 0 ==> EventNumber::of(n)@ == n,
        Version::of(n)@ == n,
{
}

/// The point in a stream after which events are read.
#[derive(Clone, Copy, Debug, PartialEq, Eq, Hash, Structural)]
pub enum Since {
    /// Before the first event.
    BeginningOfStream,
    /// After the event with this number.
    Event(EventNumber),
}

impl View for Since {
    type V = nat;

    /// The number of the last event that is left out, zero if none is.
    open spec fn view(&self) -> nat {
        match self {
            Since::BeginningOfStream => 0,
            Since::Event(number) => number@,
        }
    }
}

/// What a signed column of eight bytes holds for the unsigned number `n`: the same number in its
/// lower half, the number less the range of the type in its upper half.
pub open spec fn column_of(n: nat) -> int {
    if n <= i64::MAX {
        n as int
    } else {
        n - u64::MAX - 1
    }
}

/// The unsigned number that the signed column value `c` stands for.
pub open spec fn number_of(c: int) -> nat {
    if c >= 0 {
        c as nat
    } else {
        (c + u64::MAX + 1) as nat
    }
}

/// Writing a number to its column and reading it back changes nothing.
pub proof fn law_column_round_trip(n: nat)
    requires
        n <= u64::MAX,
    ensures
        number_of(column_of(n)) == n,
        i64::MIN <= column_of(n) <= i64::MAX,
{
}

/// Reading a column value and writing it again changes nothing.
pub proof fn law_number_round_trip(c: int)
    requires
        i64::MIN <= c <= i64::MAX,
    ensures
        column_of(number_of(c)) == c,
        number_of(c) <= u64::MAX,
{
}

/// That an unsigned number and a signed one are the same in eight bytes: they are equal, or differ
/// by the range of the type.
pub open spec fn stands_for(column: int, n: nat) -> bool {
    &&& i64::MIN <= column <= i64::MAX
    &&& n <= u64::MAX
    &&& n == column || n == column + 0x1_0000_0000_0000_0000
}

/// A signed column of eight bytes holds an unsigned number by its eight bytes. Reading a column
/// works the other way round.
pub proof fn law_columns_hold_bytes(n: nat, c: int)
    requires
        n <= u64::MAX,
        i64::MIN <= c <= i64::MAX,
    ensures
        stands_for(column_of(n), n),
        stands_for(c, number_of(c)),
{
}

/// A version is determined by its value: the initial one has the value zero, every other one that
/// of its event.
pub proof fn law_version_is_its_value(version: Version, n: nat)
    requires
        n <= u64::MAX,
        version@ == n,
        version is Initial <==> n == 0,
    ensures
        version == Version::of(n),
{
}

/// A number can be read from the event number that was made of it, and there is none for zero.
pub proof fn law_event_number_is_read_back(number: u64, event: Option<EventNumber>, read: u64)
    requires
        call_ensures(EventNumber::new, (number,), event),
        event matches Some(event) ==> call_ensures(EventNumber::get, (event,), read),
    ensures
        event is None <==> number == 0,
        event is Some ==> read == number,
{
}

/// A number can be read from the version that was made of it, the initial version is that of zero,
/// and the next event has the number after it.
pub proof fn law_version_is_read_back(number: u64, version: Version, read: u64, next: EventNumber)
    requires
        number < u64::MAX,
        call_ensures(Version::new, (number,), version),
        call_ensures(Version::get, (version,), read),
        call_ensures(Version::next_event, (version,), next),
    ensures
        read == number,
        version is Initial <==> number == 0,
        next@ == number + 1,
{
}

/// Reading starts after the event that is given, or before the first one.
pub proof fn law_since_is_the_event_given(number: EventNumber)
    ensures
        Since::BeginningOfStream@ == 0,
        Since::Event(number)@ == number@,
{
}

/// The column value of an unsigned number.
pub(crate) fn to_column(number: u64) -> (column: i64)
    ensures
        column == column_of(number as nat),
{
    assert(number <= 0x7fff_ffff_ffff_ffffu64 ==> (number as i64) == number) by (bit_vector);
    assert(number > 0x7fff_ffff_ffff_ffffu64 ==> (number as i64)
        == number - 0x1_0000_0000_0000_0000) by (bit_vector);
    number as i64
}

/// The unsigned number of a column value.
pub(crate) fn from_column(column: i64) -> (number: u64)
    ensures
        number == number_of(column as int),
{
    assert(column >= 0 ==> (column as u64) == column) by (bit_vector);
    assert(column < 0 ==> (column as u64) == column + 0x1_0000_0000_0000_0000) by (bit_vector);
    column as u64
}

} // verus!
