//! Endpoint ids and broadcast tickets.

use vstd::prelude::*;

use crate::text;

verus! {

/// The id of an endpoint: 32 bytes, read as two big-endian halves.
///
/// The order of the ids is the order of the bytes.
#[derive(Debug, Clone, Copy, PartialEq, Eq, PartialOrd, Ord, Hash, Structural)]
pub struct EndpointId {
    /// The first sixteen bytes.
    pub high: u128,
    /// The last sixteen bytes.
    pub low: u128,
}

/// A hexadecimal digit in lower case, as a text of one character.
pub open spec fn hex_digit(d: nat) -> Seq<char> {
    if d < 10 {
        text::digit_text(d)
    } else if d == 10 {
        seq!['a']
    } else if d == 11 {
        seq!['b']
    } else if d == 12 {
        seq!['c']
    } else if d == 13 {
        seq!['d']
    } else if d == 14 {
        seq!['e']
    } else {
        seq!['f']
    }
}

/// The last `width` hexadecimal digits of `n`.
pub open spec fn hex(n: nat, width: nat) -> Seq<char>
    decreases width,
{
    if width == 0 {
        seq![]
    } else {
        hex(n / 16, (width - 1) as nat) + hex_digit(n % 16)
    }
}

fn hex_str(d: u64) -> (res: &'static str)
    requires
        d < 16,
    ensures
        res@ == hex_digit(d as nat),
{
    proof {
        reveal_strlit("a");
        reveal_strlit("b");
        reveal_strlit("c");
        reveal_strlit("d");
        reveal_strlit("e");
        reveal_strlit("f");
    }
    if d < 10 {
        return text::digit_str(d);
    }
    let res: &'static str = match d {
        10 => "a",
        11 => "b",
        12 => "c",
        13 => "d",
        14 => "e",
        _ => "f",
    };
    assert(res@ =~= hex_digit(d as nat));
    res
}

fn hex_text(n: u128, width: u64) -> (res: String)
    ensures
        res@ == hex(n as nat, width as nat),
    decreases width,
{
    if width == 0 {
        String::new()
    } else {
        hex_text(n / 16, width - 1).concat(hex_str((n % 16) as u64))
    }
}

impl EndpointId {
    /// The short form of the id: the first five bytes in hexadecimal.
    pub open spec fn short(self) -> Seq<char> {
        hex((self.high / 0x1_00_0000_0000_0000_0000_0000) as nat, 10)
    }

    /// Returns the short form of the id.
    pub fn fmt_short(&self) -> (res: String)
        ensures
            res@ == self.short(),
    {
        hex_text(self.high / 0x1_00_0000_0000_0000_0000_0000, 10)
    }

    /// The whole id: its bytes in hexadecimal.
    pub open spec fn long(self) -> Seq<char> {
        hex(self.high as nat, 32) + hex(self.low as nat, 32)
    }

    /// Returns the whole id in hexadecimal.
    pub fn to_hex(&self) -> (res: String)
        ensures
            res@ == self.long(),
    {
        hex_text(self.high, 32).concat(hex_text(self.low, 32).as_str())
    }

    /// Whether this id comes before `other`.
    pub open spec fn precedes(self, other: EndpointId) -> bool {
        self.high < other.high || (self.high == other.high && self.low < other.low)
    }

    /// Returns whether this id comes before `other`.
    pub fn is_before(&self, other: &EndpointId) -> (res: bool)
        ensures
            res == self.precedes(*other),
    {
        self.high < other.high || (self.high == other.high && self.low < other.low)
    }
}

/// Names one broadcast of one endpoint.
#[derive(Debug, PartialEq, Eq)]
pub struct BroadcastTicket {
    /// The endpoint that serves the broadcast.
    pub endpoint: EndpointId,
    /// The path it serves the broadcast at.
    pub name: String,
}

/// A [`BroadcastTicket`] with its path as a character sequence.
pub struct TicketView {
    pub endpoint: EndpointId,
    pub name: Seq<char>,
}

impl View for BroadcastTicket {
    type V = TicketView;

    open spec fn view(&self) -> TicketView {
        TicketView { endpoint: self.endpoint, name: self.name@ }
    }
}

impl Clone for BroadcastTicket {
    fn clone(&self) -> (res: Self)
        ensures
            res@ == self@,
    {
        BroadcastTicket { endpoint: self.endpoint, name: self.name.clone() }
    }
}

impl BroadcastTicket {
    /// Creates the ticket for the broadcast `name` of `endpoint`.
    pub fn new(endpoint: EndpointId, name: String) -> (res: Self)
        ensures
            res@ == (TicketView { endpoint, name: name@ }),
    {
        BroadcastTicket { endpoint, name }
    }

    /// Returns whether two tickets name the same broadcast of the same endpoint.
    pub fn same_as(&self, other: &BroadcastTicket) -> (res: bool)
        ensures
            res == (self@ == other@),
    {
        self.endpoint == other.endpoint && text::same(self.name.as_str(), other.name.as_str())
    }
}

/// Returns a copy of an optional ticket.
pub fn clone_opt_ticket(ticket: &Option<BroadcastTicket>) -> (res: Option<BroadcastTicket>)
    ensures
        opt_ticket(res) == opt_ticket(*ticket),
{
    match ticket {
        Some(ticket) => Some(ticket.clone()),
        None => None,
    }
}

/// An optional ticket by its view.
pub open spec fn opt_ticket(ticket: Option<BroadcastTicket>) -> Option<TicketView> {
    match ticket {
        Some(ticket) => Some(ticket@),
        None => None,
    }
}

proof fn lemma_hex_len(n: nat, width: nat)
    ensures
        hex(n, width).len() == width,
    decreases width,
{
    if width > 0 {
        lemma_hex_len(n / 16, (width - 1) as nat);
    }
}

/// A power of sixteen.
spec fn sixteen_to(k: nat) -> nat
    decreases k,
{
    if k == 0 {
        1
    } else {
        16 * sixteen_to((k - 1) as nat)
    }
}

proof fn lemma_hex_prefix(n: nat, width: nat, cut: nat)
    ensures
        sixteen_to(cut) > 0,
        hex(n, width + cut).take(width as int) == hex(n / sixteen_to(cut), width),
    decreases cut,
{
    lemma_hex_len(n, width + cut);
    if cut == 0 {
        assert(hex(n, width).take(width as int) =~= hex(n, width));
        assert(n / 1 == n);
    } else {
        let less = (cut - 1) as nat;
        lemma_hex_prefix(n / 16, width, less);
        lemma_hex_len(n / 16, width + less);
        assert(hex(n, width + cut).take(width as int) =~= hex(n / 16, width + less).take(
            width as int,
        ));
        vstd::arithmetic::div_mod::lemma_div_denominator(n as int, 16, sixteen_to(less) as int);
    }
}

proof fn lemma_hex_digit(a: nat, b: nat)
    requires
        a < 16,
        b < 16,
        hex_digit(a) == hex_digit(b),
    ensures
        a == b,
{
    law_hex_digits_are_in_order(a);
    law_hex_digits_are_in_order(b);
    assert(hex_digit(a)[0] == hex_digit(b)[0]);
}

proof fn lemma_hex_injective(a: nat, b: nat, width: nat)
    requires
        a < sixteen_to(width),
        b < sixteen_to(width),
        hex(a, width) == hex(b, width),
    ensures
        a == b,
    decreases width,
{
    if width > 0 {
        let less = (width - 1) as nat;
        lemma_hex_len(a / 16, less);
        lemma_hex_len(b / 16, less);
        assert(hex(a / 16, less) =~= hex(a, width).take(less as int));
        assert(hex(b / 16, less) =~= hex(b, width).take(less as int));
        assert(hex_digit(a % 16) =~= hex(a, width).skip(less as int));
        assert(hex_digit(b % 16) =~= hex(b, width).skip(less as int));
        lemma_hex_injective(a / 16, b / 16, less);
        lemma_hex_digit(a % 16, b % 16);
    }
}

/// The text of an id has sixty-four characters, the short text is its start, and
/// no two ids have the same text.
pub proof fn law_an_id_is_known_by_its_text(one: EndpointId, other: EndpointId)
    ensures
        one.long().len() == 64,
        one.short() == one.long().take(10),
        one.long() == other.long() ==> one == other,
{
    lemma_hex_len(one.high as nat, 32);
    lemma_hex_len(one.low as nat, 32);
    lemma_hex_len(other.high as nat, 32);
    lemma_hex_len(other.low as nat, 32);
    lemma_hex_prefix(one.high as nat, 10, 22);
    reveal_with_fuel(sixteen_to, 33);
    assert(sixteen_to(22) == 0x1_00_0000_0000_0000_0000_0000nat);
    assert(one.long().take(10) =~= hex(one.high as nat, 32).take(10));
    if one.long() == other.long() {
        assert(hex(one.high as nat, 32) =~= one.long().take(32));
        assert(hex(other.high as nat, 32) =~= other.long().take(32));
        assert(hex(one.low as nat, 32) =~= one.long().skip(32));
        assert(hex(other.low as nat, 32) =~= other.long().skip(32));
        assert(sixteen_to(32) == 0x1_0000_0000_0000_0000_0000_0000_0000_0000nat);
        lemma_hex_injective(one.high as nat, other.high as nat, 32);
        lemma_hex_injective(one.low as nat, other.low as nat, 32);
    }
}

/// The text of a one-digit number is that digit, and from ten on the letters
/// follow in order.
pub proof fn law_hex_digits_are_in_order(d: nat)
    requires
        d < 16,
    ensures
        hex_digit(d).len() == 1,
        hex_digit(d)[0] as int == if d < 10 {
            '0' as int + d
        } else {
            'a' as int + d - 10
        },
{
}

/// Of two ids that differ exactly one precedes the other.
pub proof fn law_ids_are_ordered(one: EndpointId, other: EndpointId, third: EndpointId)
    ensures
        one == other ==> !one.precedes(other),
        one != other ==> one.precedes(other) != other.precedes(one),
        one.precedes(other) && other.precedes(third) ==> one.precedes(third),
        one.high < other.high ==> one.precedes(other),
        one.high == other.high && one.low < other.low ==> one.precedes(other),
{
}

/// A ticket that is there is seen, and where there is none, none is.
pub proof fn law_a_ticket_that_is_there_is_seen(ticket: BroadcastTicket)
    ensures
        opt_ticket(Some(ticket)) == Some(ticket@),
        opt_ticket(None) is None,
{
}

} // verus!
