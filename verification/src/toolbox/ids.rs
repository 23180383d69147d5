//! Ids and times for new entities. An id is drawn from a source that numbers
//! what it hands out, so that two ids of one source differ even where the
//! clock has not moved between them.

use vstd::prelude::*;
use crate::clock::{read_clock, ClockReading};
use crate::text::{
    decimal, digit_char, lower_hex, opt_view, push_decimal, push_lower_hex, str_eq, to_chars,
};

verus! {

/// The status text that a stored rule or server has when none was written.
pub fn default_stopped() -> (s: String)
    ensures
        s@ == "stopped"@,
{
    "stopped".to_string()
}

/// The text of a number of nanoseconds: the number in lower-case
/// hexadecimal.
pub fn id_from_nanos(nanos: u128) -> (id: String)
    ensures
        id@ == lower_hex(nanos as nat),
{
    let mut id = String::new();
    push_lower_hex(&mut id, nanos);
    assert(Seq::<char>::empty() + lower_hex(nanos as nat) =~= lower_hex(nanos as nat));
    id
}

/// The part of an id that a clock reading gives: its nanoseconds since the
/// Unix epoch in lower-case hexadecimal; `0` for a clock that stands before
/// the epoch.
pub open spec fn id_of(reading: Option<ClockReading>) -> Seq<char> {
    match reading {
        Some(t) => lower_hex(t.spec_nanos()),
        None => lower_hex(0),
    }
}

/// The number of ids in one round of a source's count: as many as a 64-bit
/// number tells apart.
pub open spec fn round_size() -> nat {
    0x1_0000_0000_0000_0000
}

/// Whether `c` is one of `0`-`9`, `a`-`f`.
pub open spec fn is_lower_hex_char(c: char) -> bool {
    ('0' <= c && c <= '9') || ('a' <= c && c <= 'f')
}

/// Whether the text is not empty and made of the digits `0`-`9`, `a`-`f`
/// alone.
pub open spec fn is_lower_hex_text(s: Seq<char>) -> bool {
    s.len() > 0 && forall|i: int| 0 <= i < s.len() ==> is_lower_hex_char(#[trigger] s[i])
}

/// `n` times the digit `e`: the mark of the rounds that a source's count
/// has completed.
pub open spec fn round_marks(n: nat) -> Seq<char> {
    Seq::new(n, |i: int| 'e')
}

/// The id with the given serial number, drawn at the given clock reading: a
/// text of lower-case hexadecimal digits. It begins with the part that the
/// reading gives. The serial number follows in a form that can be read back
/// from the end of the id, whatever stands before it: the digit `f`, one `e`
/// for every completed round of the count, and the place within the round
/// in the digits `0`-`9`.
pub open spec fn id_text(reading: Option<ClockReading>, serial: nat) -> Seq<char> {
    id_of(reading) + seq!['f'] + round_marks(serial / round_size()) + decimal(serial % round_size())
}

/// The id with the given place in the given round, drawn at the given
/// clock reading: see [`id_text`].
pub fn id_from_reading(reading: Option<ClockReading>, rounds: usize, place: u64) -> (id: String)
    ensures
        id@ == id_text(reading, rounds as nat * round_size() + place as nat),
{
    let ghost serial = rounds as nat * round_size() + place as nat;
    assert(serial / round_size() == rounds as nat && serial % round_size() == place as nat) by {
        lemma_round_and_place(rounds as nat, place as nat);
    }
    let mut id = match reading {
        Some(t) => id_from_nanos(t.nanos()),
        None => id_from_nanos(0),
    };
    id.push('f');
    let ghost head = id@;
    let mut i: usize = 0;
    assert(head + round_marks(0) =~= head);
    while i < rounds
        invariant
            i <= rounds,
            id@ == head + round_marks(i as nat),
        decreases rounds - i,
    {
        id.push('e');
        assert(id@ =~= head + round_marks((i + 1) as nat));
        i += 1;
    }
    push_decimal(&mut id, place);
    assert(id@ =~= id_text(reading, serial));
    id
}

/// A number that is a count of whole rounds and a place within a round has
/// that count and that place.
pub proof fn lemma_round_and_place(rounds: nat, place: nat)
    requires
        place < round_size(),
    ensures
        (rounds * round_size() + place) / round_size() == rounds,
        (rounds * round_size() + place) % round_size() == place,
{
    vstd::arithmetic::div_mod::lemma_fundamental_div_mod_converse(
        (rounds * round_size() + place) as int,
        round_size() as int,
        rounds as int,
        place as int,
    );
}

/// The serial number after the last of a round is the first of the next
/// round.
proof fn lemma_next_round(rounds: nat)
    ensures
        (rounds + 1) * round_size() + 0 == rounds * round_size() + 0xffff_ffff_ffff_ffff + 1,
{
    assert((rounds + 1) * round_size() == rounds * round_size() + round_size()) by (nonlinear_arith);
}

/// A source of ids: it numbers the ids that it hands out, and never hands
/// out a number twice.
#[derive(Debug)]
pub struct IdSource {
    /// One element for every completed round of the count.
    rounds: Vec<u8>,
    /// The place within the round.
    place: u64,
}

impl IdSource {
    /// The serial number of the next id: the number of ids handed out.
    pub closed spec fn issued(&self) -> nat {
        self.rounds@.len() * round_size() + self.place as nat
    }

    /// A source that has handed out nothing.
    pub fn new() -> (source: Self)
        ensures
            source.issued() == 0,
    {
        IdSource { rounds: Vec::new(), place: 0 }
    }
}

/// A fresh id: a text of lower-case hexadecimal digits, not empty, that is
/// the id with the source's next serial number, drawn at whatever the clock
/// reads now. The serial numbers of a source never repeat, so by
/// [`lemma_ids_differ`] the id differs from every id that the source has
/// handed out before.
pub fn generate_id(source: &mut IdSource) -> (id: String)
    ensures
        final(source).issued() == old(source).issued() + 1,
        id@.len() > 0,
        forall|i: int| 0 <= i < id@.len() ==> is_lower_hex_char(#[trigger] id@[i]),
        exists|reading: Option<ClockReading>| id@ == id_text(reading, old(source).issued()),
{
    let reading = read_clock();
    let id = id_from_reading(reading, source.rounds.len(), source.place);
    assert(id@ == id_text(reading, old(source).issued()));
    proof {
        lemma_id_text_hex(reading, old(source).issued());
    }
    let ghost before = source.rounds@.len();
    if source.place == u64::MAX {
        source.rounds.push(0);
        source.place = 0;
        proof {
            lemma_next_round(before);
        }
    } else {
        source.place = source.place + 1;
    }
    id
}

/// The views of a list of ids.
pub open spec fn id_views(ids: Seq<String>) -> Seq<Seq<char>> {
    Seq::new(ids.len(), |i: int| ids[i]@)
}

/// The length of the longest of the ids; zero where there is none.
pub open spec fn longest(ids: Seq<Seq<char>>) -> nat
    decreases ids.len(),
{
    if ids.len() == 0 {
        0
    } else if ids.last().len() > longest(ids.drop_last()) {
        ids.last().len()
    } else {
        longest(ids.drop_last())
    }
}

/// `n` times the digit `0`.
pub open spec fn zeros(n: nat) -> Seq<char> {
    Seq::new(n, |i: int| '0')
}

/// An id that is none of `ids`: the candidate itself where it is none of
/// them, else the candidate with zeros at its end, so many that it is longer
/// than every one of them.
pub open spec fn unused_id(ids: Seq<Seq<char>>, candidate: Seq<char>) -> Seq<char> {
    if !ids.contains(candidate) {
        candidate
    } else {
        candidate + zeros((longest(ids) + 1 - candidate.len()) as nat)
    }
}

/// No id is longer than the longest.
pub proof fn lemma_longest(ids: Seq<Seq<char>>, i: int)
    requires
        0 <= i < ids.len(),
    ensures
        ids[i].len() <= longest(ids),
    decreases ids.len(),
{
    if i < ids.len() - 1 {
        lemma_longest(ids.drop_last(), i);
    }
}

/// What [`unused_id`] gives is none of the ids, begins with the candidate,
/// is not empty where the candidate is not, and is made of hexadecimal
/// digits where the candidate is.
pub proof fn lemma_unused_id(ids: Seq<Seq<char>>, candidate: Seq<char>)
    ensures
        !ids.contains(unused_id(ids, candidate)),
        unused_id(ids, candidate).len() >= candidate.len(),
        is_lower_hex_text(candidate) ==> is_lower_hex_text(unused_id(ids, candidate)),
{
    if is_lower_hex_text(candidate) {
        let id = unused_id(ids, candidate);
        assert forall|i: int| 0 <= i < id.len() implies is_lower_hex_char(#[trigger] id[i]) by {
            if i < candidate.len() {
                assert(id[i] == candidate[i]);
            } else {
                assert(id[i] == '0');
            }
        }
    }
    if ids.contains(candidate) {
        let k = choose|k: int| 0 <= k < ids.len() && ids[k] == candidate;
        lemma_longest(ids, k);
        let id = unused_id(ids, candidate);
        assert(id.len() == longest(ids) + 1);
        if ids.contains(id) {
            let j = choose|j: int| 0 <= j < ids.len() && ids[j] == id;
            lemma_longest(ids, j);
        }
    }
}

/// An id that is none of those in use: see [`unused_id`].
pub fn unused_id_among(candidate: String, in_use: &Vec<String>) -> (id: String)
    ensures
        id@ == unused_id(id_views(in_use@), candidate@),
        !id_views(in_use@).contains(id@),
        id@.len() >= candidate@.len(),
        is_lower_hex_text(candidate@) ==> is_lower_hex_text(id@),
{
    let ghost ids = id_views(in_use@);
    proof {
        lemma_unused_id(ids, candidate@);
    }
    let mut found = false;
    let mut longest_len: usize = 0;
    let mut i: usize = 0;
    assert(ids.take(0) =~= Seq::<Seq<char>>::empty());
    while i < in_use.len()
        invariant
            i <= in_use.len(),
            ids == id_views(in_use@),
            found == ids.take(i as int).contains(candidate@),
            longest_len == longest(ids.take(i as int)),
        decreases in_use.len() - i,
    {
        let ghost before = ids.take(i as int);
        let ghost now = ids.take(i + 1);
        assert(now.drop_last() =~= before);
        assert(now.last() == in_use@[i as int]@);
        let same = str_eq(in_use[i].as_str(), candidate.as_str());
        proof {
            if same {
                assert(now[i as int] == candidate@);
            } else if now.contains(candidate@) {
                let k = choose|k: int| 0 <= k < now.len() && now[k] == candidate@;
                assert(before[k] == candidate@);
            } else if before.contains(candidate@) {
                let k = choose|k: int| 0 <= k < before.len() && before[k] == candidate@;
                assert(now[k] == candidate@);
            }
        }
        if same {
            found = true;
        }
        let len = to_chars(in_use[i].as_str()).len();
        if len > longest_len {
            longest_len = len;
        }
        i += 1;
    }
    assert(ids.take(in_use@.len() as int) =~= ids);
    if !found {
        return candidate;
    }
    let own = to_chars(candidate.as_str()).len();
    proof {
        let k = choose|k: int| 0 <= k < ids.len() && ids[k] == candidate@;
        lemma_longest(ids, k);
    }
    let mut id = candidate;
    let mut n: usize = own;
    assert(id@ + zeros(0) =~= id@);
    while n < longest_len
        invariant
            own <= n <= longest_len,
            own == candidate@.len(),
            id@ == candidate@ + zeros((n - own) as nat),
        decreases longest_len - n,
    {
        id.push('0');
        assert(id@ =~= candidate@ + zeros((n + 1 - own) as nat));
        n += 1;
    }
    id.push('0');
    assert(id@ =~= candidate@ + zeros((longest_len + 1 - own) as nat));
    id
}

/// The hexadecimal text of a number is not empty and is made of
/// hexadecimal digits.
pub proof fn lemma_lower_hex_chars(n: nat)
    ensures
        is_lower_hex_text(lower_hex(n)),
    decreases n,
{
    if n >= 16 {
        lemma_lower_hex_chars(n / 16);
        let head = lower_hex(n / 16);
        let last = digit_char((n % 16) as int, false);
        assert(is_lower_hex_char(last));
        assert forall|i: int| 0 <= i < lower_hex(n).len() implies is_lower_hex_char(
            #[trigger] lower_hex(n)[i],
        ) by {
            if i < head.len() {
                assert(lower_hex(n)[i] == head[i]);
            } else {
                assert(lower_hex(n)[i] == last);
            }
        }
    }
}

/// The decimal text of a number is not empty and is made of the digits
/// `0`-`9`.
pub proof fn lemma_decimal_chars(n: nat)
    ensures
        decimal(n).len() >= 1,
        forall|i: int| 0 <= i < decimal(n).len() ==> '0' <= #[trigger] decimal(n)[i] <= '9',
    decreases n,
{
    if n >= 10 {
        lemma_decimal_chars(n / 10);
        let head = decimal(n / 10);
        let last = digit_char((n % 10) as int, false);
        assert('0' <= last <= '9');
        assert forall|i: int| 0 <= i < decimal(n).len() implies '0' <= #[trigger] decimal(n)[i] <= '9' by {
            if i < head.len() {
                assert(decimal(n)[i] == head[i]);
            } else {
                assert(decimal(n)[i] == last);
            }
        }
    }
}

/// Two numbers with the same decimal text are the same number.
pub proof fn lemma_decimal_injective(a: nat, b: nat)
    requires
        decimal(a) == decimal(b),
    ensures
        a == b,
    decreases a,
{
    lemma_decimal_chars(a / 10);
    lemma_decimal_chars(b / 10);
    if a < 10 && b < 10 {
        assert(decimal(a)[0] == digit_char(a as int, false));
        assert(decimal(b)[0] == digit_char(b as int, false));
    } else if a < 10 {
        assert(decimal(b).len() >= 2);
    } else if b < 10 {
        assert(decimal(a).len() >= 2);
    } else {
        let x = decimal(a / 10);
        let y = decimal(b / 10);
        let da = digit_char((a % 10) as int, false);
        let db = digit_char((b % 10) as int, false);
        assert(x.push(da).drop_last() =~= x);
        assert(y.push(db).drop_last() =~= y);
        assert(x.push(da).last() == da);
        assert(y.push(db).last() == db);
        lemma_decimal_injective(a / 10, b / 10);
    }
}

/// An id is not empty and is made of lower-case hexadecimal digits.
pub proof fn lemma_id_text_hex(reading: Option<ClockReading>, serial: nat)
    ensures
        is_lower_hex_text(id_text(reading, serial)),
        id_text(reading, serial).len() >= 3,
{
    let a = id_of(reading);
    let m = round_marks(serial / round_size());
    let d = decimal(serial % round_size());
    match reading {
        Some(t) => lemma_lower_hex_chars(t.spec_nanos()),
        None => lemma_lower_hex_chars(0),
    }
    lemma_decimal_chars(serial % round_size());
    let id = id_text(reading, serial);
    assert forall|i: int| 0 <= i < id.len() implies is_lower_hex_char(#[trigger] id[i]) by {
        if i < a.len() {
            assert(id[i] == a[i]);
        } else if i == a.len() {
            assert(id[i] == 'f');
        } else if i < a.len() + 1 + m.len() {
            assert(id[i] == m[i - a.len() - 1]);
        } else {
            assert(id[i] == d[i - a.len() - 1 - m.len()]);
        }
    }
}

/// The serial part of an id can be read back from the end of the id: two
/// texts that each end with the digit `f`, round marks and the decimal text
/// of a place are the same only where the marks are as many and the places
/// are the same, whatever stands before the `f`.
proof fn lemma_serial_part(a1: Seq<char>, r1: nat, p1: nat, a2: Seq<char>, r2: nat, p2: nat)
    requires
        a1 + seq!['f'] + round_marks(r1) + decimal(p1) == a2 + seq!['f'] + round_marks(r2) + decimal(p2),
    ensures
        r1 == r2,
        p1 == p2,
{
    let d1 = decimal(p1);
    let d2 = decimal(p2);
    let h1 = a1 + seq!['f'] + round_marks(r1);
    let h2 = a2 + seq!['f'] + round_marks(r2);
    let t1 = h1 + d1;
    let t2 = h2 + d2;
    lemma_decimal_chars(p1);
    lemma_decimal_chars(p2);
    assert(h1.last() == 'f' || h1.last() == 'e');
    assert(h2.last() == 'f' || h2.last() == 'e');
    assert(t1 == t2);
    assert(t1.len() == h1.len() + d1.len());
    assert(t2.len() == h2.len() + d2.len());
    if d1.len() < d2.len() {
        let k = h1.len() - 1;
        assert(t1[k] == h1.last());
        assert(t2[k] == d2[k - h2.len()]);
    } else if d2.len() < d1.len() {
        let k = h2.len() - 1;
        assert(t2[k] == h2.last());
        assert(t1[k] == d1[k - h1.len()]);
    } else {
        assert(t1.skip(h1.len() as int) =~= d1);
        assert(t2.skip(h2.len() as int) =~= d2);
        lemma_decimal_injective(p1, p2);
        if r1 < r2 {
            let k = a1.len() as int;
            assert(t1[k] == 'f');
            assert(t2[k] == round_marks(r2)[k - a2.len() - 1]);
        } else if r2 < r1 {
            let k = a2.len() as int;
            assert(t2[k] == 'f');
            assert(t1[k] == round_marks(r1)[k - a1.len() - 1]);
        }
    }
}

/// Two ids with different serial numbers differ, whatever the clock read
/// when they were drawn. The serial numbers of a source never repeat, so
/// the ids of one source never repeat.
pub proof fn lemma_ids_differ(
    first: Option<ClockReading>,
    first_serial: nat,
    second: Option<ClockReading>,
    second_serial: nat,
)
    requires
        first_serial != second_serial,
    ensures
        id_text(first, first_serial) != id_text(second, second_serial),
{
    if id_text(first, first_serial) == id_text(second, second_serial) {
        lemma_serial_part(
            id_of(first),
            first_serial / round_size(),
            first_serial % round_size(),
            id_of(second),
            second_serial / round_size(),
            second_serial % round_size(),
        );
        vstd::arithmetic::div_mod::lemma_fundamental_div_mod(first_serial as int, round_size() as int);
        vstd::arithmetic::div_mod::lemma_fundamental_div_mod(second_serial as int, round_size() as int);
    }
}

/// What `chrono::DateTime::from_timestamp` and, on its result,
/// `format("%Y-%m-%d %H:%M:%S")` give for a number of seconds since the Unix
/// epoch and the nanoseconds of the second: the date and the time of day in
/// UTC as text, or `None` where chrono holds no date for the numbers.
pub uninterp spec fn utc_text(secs: i64, nanos: u32) -> Option<Seq<char>>;

/// Calls `chrono::DateTime::from_timestamp`, which gives `None` for numbers
/// outside its range, and writes what it gives with
/// `format("%Y-%m-%d %H:%M:%S")`. The result is named, not described.
#[verifier::external_body]
fn format_utc(secs: i64, nanos: u32) -> (text: Option<String>)
    ensures
        opt_view(text) == utc_text(secs, nanos),
{
    match chrono::DateTime::from_timestamp(secs, nanos) {
        Some(t) => Some(t.format("%Y-%m-%d %H:%M:%S").to_string()),
        None => None,
    }
}

/// The largest number of seconds that a signed 64-bit number holds.
pub const MAX_SECONDS: u64 = 0x7fff_ffff_ffff_ffff;

/// The time of a clock reading as text, `YYYY-MM-DD HH:MM:SS` in UTC; the
/// beginning of the Unix epoch for a clock that stands before it and for a
/// reading for which there is no text.
pub open spec fn time_text_of(reading: Option<ClockReading>) -> Seq<char> {
    match reading {
        Some(t) => if t.secs <= MAX_SECONDS && utc_text(t.secs as i64, t.subsec_nanos) is Some {
            utc_text(t.secs as i64, t.subsec_nanos)->0
        } else {
            "1970-01-01 00:00:00"@
        },
        None => "1970-01-01 00:00:00"@,
    }
}

/// The time of a clock reading as text: see [`time_text_of`].
pub fn time_text_from(reading: Option<ClockReading>) -> (text: String)
    ensures
        text@ == time_text_of(reading),
{
    match reading {
        Some(t) => {
            if t.secs <= MAX_SECONDS {
                match format_utc(t.secs as i64, t.subsec_nanos) {
                    Some(text) => text,
                    None => "1970-01-01 00:00:00".to_string(),
                }
            } else {
                "1970-01-01 00:00:00".to_string()
            }
        },
        None => "1970-01-01 00:00:00".to_string(),
    }
}

/// The current time as text, `YYYY-MM-DD HH:MM:SS` in UTC: the time of
/// whatever the clock reads now.
pub fn current_time() -> (text: String)
    ensures
        exists|reading: Option<ClockReading>| text@ == time_text_of(reading),
{
    let reading = read_clock();
    let text = time_text_from(reading);
    assert(text@ == time_text_of(reading));
    text
}

} // verus!
