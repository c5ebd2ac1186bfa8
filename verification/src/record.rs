//! The record that the benchmark inserts, and how it is written into a row.

use vstd::prelude::*;
use vstd::string::*;

verus! {

/// One row of the `users` table.
#[derive(Debug, Clone, PartialEq, Eq)]
pub struct User {
    /// The 128-bit identifier; the table's primary key.
    pub id: u128,
    /// The moment of creation, already in its textual form.
    pub created_at: String,
    /// The user's name.
    pub username: String,
}

/// A record as contracts see it.
pub struct UserView {
    pub id: u128,
    pub created_at: Seq<char>,
    pub username: Seq<char>,
}

impl View for User {
    type V = UserView;

    open spec fn view(&self) -> UserView {
        UserView { id: self.id, created_at: self.created_at@, username: self.username@ }
    }
}

impl UserView {
    /// What holds of every generated record: the identifier is marked as a
    /// random one, the timestamp has the outline of a UTC timestamp, and the
    /// name is the placeholder.
    pub open spec fn generated(self) -> bool {
        &&& is_random_id(self.id)
        &&& is_utc_stamp(self.created_at)
        &&& self.username == placeholder_name()
    }
}

/// The values bound to the three columns of a row, in column order.
pub struct RowView {
    pub id: Seq<char>,
    pub created_at: Seq<char>,
    pub username: Seq<char>,
}

/// The name that every generated record carries.
pub open spec fn placeholder_name() -> Seq<char> {
    "Someone"@
}

/// Whether `id` has the version and variant bits of a random (version 4)
/// identifier: bits 76 to 79 hold the version, 4, and bits 62 and 63 hold
/// the variant, binary 10. In the canonical text the third group then starts
/// with `4` and the fourth with `8`, `9`, `a` or `b`.
pub open spec fn is_random_id(id: u128) -> bool {
    id & 0xF000_C000_0000_0000_0000u128 == 0x4000_8000_0000_0000_0000u128
}

/// Whether `s` has the outline of a UTC timestamp with a numeric offset:
/// it is at least as long as `0000-00-00T00:00:00+00:00` and ends in
/// `+00:00`.
pub open spec fn is_utc_stamp(s: Seq<char>) -> bool {
    &&& s.len() >= 25
    &&& s.subrange(s.len() - 6, s.len() as int) == seq!['+', '0', '0', ':', '0', '0']
}

/// The character that writes the hexadecimal digit `d` in lower case.
pub open spec fn hex_char(d: nat) -> char
    recommends
        d < 16,
{
    seq!['0', '1', '2', '3', '4', '5', '6', '7', '8', '9', 'a', 'b', 'c', 'd', 'e', 'f'][d as int]
}

/// The lowest `width` hexadecimal digits of `v`, most significant first.
pub open spec fn hex_digits(v: nat, width: nat) -> Seq<char>
    decreases width,
{
    if width == 0 {
        Seq::empty()
    } else {
        hex_digits(v / 16, (width - 1) as nat).push(hex_char(v % 16))
    }
}

/// The canonical text of an identifier: its 32 hexadecimal digits in lower
/// case, in groups of 8, 4, 4, 4 and 12 with a hyphen between groups.
pub open spec fn canonical(id: u128) -> Seq<char> {
    let h = hex_digits(id as nat, 32);
    h.subrange(0, 8) + seq!['-'] + h.subrange(8, 12) + seq!['-'] + h.subrange(12, 16) + seq!['-']
        + h.subrange(16, 20) + seq!['-'] + h.subrange(20, 32)
}

/// Draws a random identifier.
///
/// Trusted: calls `uuid::Uuid::new_v4` and reads the result with
/// `Uuid::as_u128`. `new_v4` takes 128 random bits, clears the bits of the
/// version and variant fields and sets them to version 4 and the RFC
/// variant; nothing else is claimed of the value.
#[verifier::external_body]
fn random_id() -> (id: u128)
    ensures
        is_random_id(id),
{
    uuid::Uuid::new_v4().as_u128()
}

/// Writes an identifier in its canonical form.
///
/// Trusted: builds a `uuid::Uuid` with `Uuid::from_u128` and formats it with
/// its `Display` impl, which writes the sixteen bytes, most significant
/// first, as lower-case hexadecimal digits with hyphens after the 8th, 12th,
/// 16th and 20th digit.
#[verifier::external_body]
fn id_text(id: u128) -> (s: String)
    ensures
        s@ == canonical(id),
{
    uuid::Uuid::from_u128(id).to_string()
}

/// Reads the clock and writes the moment as a timestamp.
///
/// Trusted: calls `chrono::Utc::now` and `DateTime::to_rfc3339` on the
/// result. The text is date, `T`, time, an optional fraction and the offset;
/// for UTC the offset is written `+00:00`, and date and time together take at
/// least 19 characters.
#[verifier::external_body]
fn utc_now_text() -> (s: String)
    ensures
        is_utc_stamp(s@),
{
    chrono::Utc::now().to_rfc3339()
}

impl User {
    /// Generates a record: a random identifier, the current time, and the
    /// placeholder name.
    pub fn gen() -> (u: User)
        ensures
            u@.generated(),
    {
        User { id: random_id(), created_at: utc_now_text(), username: String::from_str("Someone") }
    }

    /// What is stored for this record, column by column.
    pub open spec fn row(self) -> RowView {
        RowView {
            id: canonical(self.id),
            created_at: self.created_at@,
            username: self.username@,
        }
    }

    /// The three values to bind to an insert statement, in column order:
    /// the identifier in canonical form, the timestamp, the name.
    pub fn params(&self) -> (p: (String, String, String))
        ensures
            p.0@ == self.row().id,
            p.1@ == self.row().created_at,
            p.2@ == self.row().username,
    {
        (id_text(self.id), self.created_at.clone(), self.username.clone())
    }
}

spec fn pow16(w: nat) -> nat
    decreases w,
{
    if w == 0 {
        1
    } else {
        16 * pow16((w - 1) as nat)
    }
}

/// The number that the lowest `width` hexadecimal digits of `v` write.
spec fn low(v: nat, width: nat) -> nat
    decreases width,
{
    if width == 0 {
        0
    } else {
        16 * low(v / 16, (width - 1) as nat) + v % 16
    }
}

proof fn lemma_hex_char_injective(a: nat, b: nat)
    requires
        a < 16,
        b < 16,
        hex_char(a) == hex_char(b),
    ensures
        a == b,
{
}

proof fn lemma_hex_digits_len(v: nat, width: nat)
    ensures
        hex_digits(v, width).len() == width,
    decreases width,
{
    if width > 0 {
        lemma_hex_digits_len(v / 16, (width - 1) as nat);
    }
}

proof fn lemma_digits_give_low(x: nat, y: nat, width: nat)
    requires
        hex_digits(x, width) == hex_digits(y, width),
    ensures
        low(x, width) == low(y, width),
    decreases width,
{
    if width > 0 {
        let w = (width - 1) as nat;
        let hx = hex_digits(x / 16, w);
        let hy = hex_digits(y / 16, w);
        lemma_hex_digits_len(x / 16, w);
        lemma_hex_digits_len(y / 16, w);
        assert(hx.push(hex_char(x % 16)).drop_last() =~= hx);
        assert(hy.push(hex_char(y % 16)).drop_last() =~= hy);
        assert(hx.push(hex_char(x % 16)).last() == hex_char(x % 16));
        assert(hy.push(hex_char(y % 16)).last() == hex_char(y % 16));
        lemma_hex_char_injective(x % 16, y % 16);
        lemma_digits_give_low(x / 16, y / 16, w);
    }
}

proof fn lemma_low_of_small(v: nat, width: nat)
    requires
        v < pow16(width),
    ensures
        low(v, width) == v,
    decreases width,
{
    if width > 0 {
        lemma_low_of_small(v / 16, (width - 1) as nat);
    }
}

/// Two identifiers with the same canonical text are the same identifier: a
/// column that holds the text and admits no duplicates admits no duplicate
/// identifier.
pub proof fn lemma_canonical_is_injective(a: u128, b: u128)
    requires
        canonical(a) == canonical(b),
    ensures
        a == b,
{
    let ha = hex_digits(a as nat, 32);
    let hb = hex_digits(b as nat, 32);
    lemma_hex_digits_len(a as nat, 32);
    lemma_hex_digits_len(b as nat, 32);
    let ca = canonical(a);
    let cb = canonical(b);
    assert forall|k: int| 0 <= k < 32 implies ha[k] == hb[k] by {
        let p = if k < 8 {
            k
        } else if k < 12 {
            k + 1
        } else if k < 16 {
            k + 2
        } else if k < 20 {
            k + 3
        } else {
            k + 4
        };
        assert(ca[p] == ha[k]);
        assert(cb[p] == hb[k]);
    }
    assert(ha =~= hb);
    lemma_digits_give_low(a as nat, b as nat, 32);
    assert(pow16(32) == 0x1_0000_0000_0000_0000_0000_0000_0000_0000nat) by {
        reveal_with_fuel(pow16, 33);
    }
    lemma_low_of_small(a as nat, 32);
    lemma_low_of_small(b as nat, 32);
}

} // verus!
