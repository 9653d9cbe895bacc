use vstd::prelude::*;

verus! {

/// A character that a token may hold: `a`..`z`, `A`..`Y` and `0`..`8`.
pub open spec fn is_token_char(c: char) -> bool {
    ||| ('a' as u32 <= c as u32 && c as u32 <= 'z' as u32)
    ||| ('A' as u32 <= c as u32 && c as u32 <= 'Y' as u32)
    ||| ('0' as u32 <= c as u32 && c as u32 <= '8' as u32)
}

pub const SHORT_TOKEN_LEN: usize = 5;

pub const GROUP_LEN: usize = 4;

pub const GROUP_COUNT: usize = 5;

/// A short token: five token characters.
pub open spec fn is_short_token(s: Seq<char>) -> bool {
    s.len() == 5 && forall|i: int| 0 <= i < 5 ==> is_token_char(#[trigger] s[i])
}

/// A long token: five groups of four token characters joined by `-` (24 characters).
pub open spec fn is_long_token(s: Seq<char>) -> bool {
    &&& s.len() == 24
    &&& forall|i: int|
        0 <= i < 24 ==> if i % 5 == 4 {
            #[trigger] s[i] == '-'
        } else {
            is_token_char(s[i])
        }
}

pub open spec fn is_ascii_text(s: Seq<char>) -> bool {
    forall|i: int| 0 <= i < s.len() ==> (#[trigger] s[i]) as u32 <= 127
}

/// What a five-byte string buffer holds.
pub uninterp spec fn short_buffer_text(b: arrayvec::ArrayString<5>) -> Seq<char>;

/// What a twenty-five-byte string buffer holds.
pub uninterp spec fn long_buffer_text(b: arrayvec::ArrayString<25>) -> Seq<char>;

#[verifier::external_type_specification]
#[verifier::external_body]
pub struct ExArrayString<const CAP: usize>(arrayvec::ArrayString<CAP>);

/// Relies on arrayvec's ArrayString::new: an empty buffer.
#[verifier::external_body]
fn short_buffer() -> (r: arrayvec::ArrayString<5>)
    ensures
        short_buffer_text(r) == Seq::<char>::empty(),
{
    arrayvec::ArrayString::new()
}

/// Relies on arrayvec's ArrayString::push: appends the character; it panics only when the
/// bytes do not fit, which an ASCII text shorter than the capacity rules out.
#[verifier::external_body]
fn short_buffer_push(b: &mut arrayvec::ArrayString<5>, c: char)
    requires
        short_buffer_text(*old(b)).len() < 5,
        is_ascii_text(short_buffer_text(*old(b))),
        c as u32 <= 127,
    ensures
        short_buffer_text(*final(b)) == short_buffer_text(*old(b)).push(c),
{
    b.push(c)
}

/// Relies on ArrayString's `Display`: the text held.
#[verifier::external_body]
fn short_buffer_string(b: &arrayvec::ArrayString<5>) -> (r: String)
    ensures
        r@ == short_buffer_text(*b),
{
    b.to_string()
}

/// Relies on arrayvec's ArrayString::new: an empty buffer.
#[verifier::external_body]
fn long_buffer() -> (r: arrayvec::ArrayString<25>)
    ensures
        long_buffer_text(r) == Seq::<char>::empty(),
{
    arrayvec::ArrayString::new()
}

/// Relies on arrayvec's ArrayString::push: appends the character; it panics only when the
/// bytes do not fit, which an ASCII text shorter than the capacity rules out.
#[verifier::external_body]
fn long_buffer_push(b: &mut arrayvec::ArrayString<25>, c: char)
    requires
        long_buffer_text(*old(b)).len() < 25,
        is_ascii_text(long_buffer_text(*old(b))),
        c as u32 <= 127,
    ensures
        long_buffer_text(*final(b)) == long_buffer_text(*old(b)).push(c),
{
    b.push(c)
}

/// Relies on ArrayString's `Display`: the text held.
#[verifier::external_body]
fn long_buffer_string(b: &arrayvec::ArrayString<25>) -> (r: String)
    ensures
        r@ == long_buffer_text(*b),
{
    b.to_string()
}

/// Relies on rand's IndexedRandom::choose with the thread-local generator: one element of
/// the slice, `None` only for an empty slice.
#[verifier::external_body]
fn choose_char(alphabet: &[char]) -> (r: char)
    requires
        alphabet@.len() > 0,
    ensures
        alphabet@.contains(r),
{
    *rand::seq::IndexedRandom::choose(alphabet, &mut rand::rng()).unwrap()
}

/// Appends the characters from `first` to `last`, both included, in order.
fn push_char_range(v: &mut Vec<char>, first: u8, last: u8)
    requires
        first <= last,
        last < 128,
    ensures
        final(v)@.len() == old(v)@.len() + (last - first + 1),
        forall|i: int| 0 <= i < old(v)@.len() ==> final(v)@[i] == old(v)@[i],
        forall|i: int|
            old(v)@.len() <= i < final(v)@.len() ==> (#[trigger] final(v)@[i]) as int == first
                + (i - old(v)@.len()),
{
    let ghost start = old(v)@.len();
    let mut b: u16 = first as u16;
    while b <= last as u16
        invariant
            first <= b <= last + 1,
            last < 128,
            v@.len() == start + (b - first),
            forall|i: int| 0 <= i < start ==> v@[i] == old(v)@[i],
            forall|i: int| start <= i < v@.len() ==> (#[trigger] v@[i]) as int == first + (i - start),
        decreases last + 1 - b,
    {
        v.push((b as u8) as char);
        b = b + 1;
    }
}

/// The code of the `i`-th character of the token alphabet: `a`..`z`, then `A`..`Y`, then `0`..`8`.
pub open spec fn alphabet_code(i: int) -> int {
    if i < 26 {
        97 + i
    } else if i < 51 {
        65 + (i - 26)
    } else {
        48 + (i - 51)
    }
}

/// The characters tokens are drawn from.
pub fn token_alphabet() -> (r: Vec<char>)
    ensures
        r@.len() == 60,
        forall|i: int| 0 <= i < 60 ==> (#[trigger] r@[i]) as int == alphabet_code(i),
        forall|i: int| 0 <= i < r@.len() ==> is_token_char(#[trigger] r@[i]),
{
    let mut v: Vec<char> = Vec::new();
    push_char_range(&mut v, 97, 122);
    push_char_range(&mut v, 65, 89);
    push_char_range(&mut v, 48, 56);
    v
}

/// A random short token: five characters of the token alphabet.
pub fn generate_token() -> (r: String)
    ensures
        is_short_token(r@),
{
    let alphabet = token_alphabet();
    let mut buffer = short_buffer();
    let mut i: usize = 0;
    while i < SHORT_TOKEN_LEN
        invariant
            i <= 5,
            short_buffer_text(buffer).len() == i,
            forall|j: int| 0 <= j < i ==> is_token_char(#[trigger] short_buffer_text(buffer)[j]),
            alphabet@.len() == 60,
            forall|j: int| 0 <= j < alphabet@.len() ==> is_token_char(#[trigger] alphabet@[j]),
        decreases 5 - i,
    {
        let c = choose_char(alphabet.as_slice());
        short_buffer_push(&mut buffer, c);
        i = i + 1;
    }
    short_buffer_string(&buffer)
}

/// A random long token: `XXXX-XXXX-XXXX-XXXX-XXXX`, each `X` a character of the token alphabet.
pub fn generate_long_token() -> (r: String)
    ensures
        is_long_token(r@),
{
    let alphabet = token_alphabet();
    let mut buffer = long_buffer();
    let mut group: usize = 0;
    while group < GROUP_COUNT - 1
        invariant
            group <= 4,
            long_buffer_text(buffer).len() == 5 * group,
            is_grouped_prefix(long_buffer_text(buffer)),
            alphabet@.len() == 60,
            forall|j: int| 0 <= j < alphabet@.len() ==> is_token_char(#[trigger] alphabet@[j]),
        decreases 4 - group,
    {
        push_group(&mut buffer, &alphabet);
        long_buffer_push(&mut buffer, '-');
        group = group + 1;
    }
    push_group(&mut buffer, &alphabet);
    long_buffer_string(&buffer)
}

/// Every character is a token character, but for a `-` at each fifth place.
pub open spec fn is_grouped_prefix(s: Seq<char>) -> bool {
    forall|i: int|
        0 <= i < s.len() ==> if i % 5 == 4 {
            #[trigger] s[i] == '-'
        } else {
            is_token_char(s[i])
        }
}

/// Appends four random characters of the alphabet to a buffer that holds whole groups.
fn push_group(buffer: &mut arrayvec::ArrayString<25>, alphabet: &Vec<char>)
    requires
        long_buffer_text(*old(buffer)).len() % 5 == 0,
        long_buffer_text(*old(buffer)).len() <= 20,
        is_grouped_prefix(long_buffer_text(*old(buffer))),
        alphabet@.len() > 0,
        forall|j: int| 0 <= j < alphabet@.len() ==> is_token_char(#[trigger] alphabet@[j]),
    ensures
        long_buffer_text(*final(buffer)).len() == long_buffer_text(*old(buffer)).len() + 4,
        is_grouped_prefix(long_buffer_text(*final(buffer))),
{
    let ghost start = long_buffer_text(*buffer).len();
    let mut k: usize = 0;
    while k < GROUP_LEN
        invariant
            k <= 4,
            start % 5 == 0,
            start <= 20,
            long_buffer_text(*buffer).len() == start + k,
            is_grouped_prefix(long_buffer_text(*buffer)),
            alphabet@.len() > 0,
            forall|j: int| 0 <= j < alphabet@.len() ==> is_token_char(#[trigger] alphabet@[j]),
        decreases 4 - k,
    {
        let c = choose_char(alphabet.as_slice());
        long_buffer_push(buffer, c);
        k = k + 1;
    }
}

} // verus!
