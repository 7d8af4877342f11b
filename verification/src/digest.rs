//! SHA-256 digests of files that are read piece by piece, and the comparison of
//! digests written in hexadecimal.
use crate::cancel::PackCancel;
use sha2::Digest;
use vstd::prelude::*;
use vstd::slice::slice_subrange;

verus! {

/// The hasher of the `sha2` crate.
#[verifier::external_type_specification]
#[verifier::external_body]
pub struct ExSha256(sha2::Sha256);

/// The bytes that a hasher has taken in so far.
pub uninterp spec fn sha256_input(hasher: sha2::Sha256) -> Seq<u8>;

/// The SHA-256 digest of a byte string.
pub uninterp spec fn sha256(data: Seq<u8>) -> Seq<u8>;

/// `Digest::new` for `sha2::Sha256`: a hasher that has taken in nothing.
#[verifier::external_body]
fn sha256_new() -> (hasher: sha2::Sha256)
    ensures
        sha256_input(hasher) == Seq::<u8>::empty(),
{
    sha2::Sha256::new()
}

/// `Digest::update` for `sha2::Sha256`: takes in the bytes after those taken
/// in before. The hasher counts bits in a `u64`, so the bytes must stay below
/// two to the power of 61.
#[verifier::external_body]
fn sha256_update(hasher: &mut sha2::Sha256, data: &[u8])
    requires
        sha256_input(*old(hasher)).len() + data@.len() < HASH_LIMIT,
    ensures
        sha256_input(*final(hasher)) == sha256_input(*old(hasher)) + data@,
{
    hasher.update(data)
}

/// `Digest::finalize` for `sha2::Sha256`: the digest of all bytes taken in,
/// which has 32 bytes.
#[verifier::external_body]
fn sha256_finalize(hasher: sha2::Sha256) -> (digest: Vec<u8>)
    ensures
        digest@ == sha256(sha256_input(hasher)),
        digest@.len() == 32,
{
    hasher.finalize().to_vec()
}

/// A hasher takes in fewer bytes than this.
pub const HASH_LIMIT: u64 = 0x2000_0000_0000_0000;

/// The character of a hexadecimal digit, in lower case.
pub open spec fn hex_digit(d: int) -> char {
    if d < 10 {
        (48 + d) as char
    } else {
        (87 + d) as char
    }
}

/// Bytes in hexadecimal: two digits each, the high half first.
pub open spec fn hex(bytes: Seq<u8>) -> Seq<char> {
    Seq::new(
        2 * bytes.len(),
        |i: int| hex_digit(if i % 2 == 0 { bytes[i / 2] / 16 } else { bytes[i / 2] % 16 } as int),
    )
}

/// An ASCII capital's lower case; any other character itself.
pub open spec fn ascii_lower(c: char) -> char {
    if 'A' <= c <= 'Z' {
        (c as u32 + 32) as char
    } else {
        c
    }
}

/// Whether two texts are the same but for the case of ASCII letters.
pub open spec fn same_ignoring_case(a: Seq<char>, b: Seq<char>) -> bool {
    &&& a.len() == b.len()
    &&& forall|i: int| 0 <= i < a.len() ==> ascii_lower(a[i]) == ascii_lower(b[i])
}

/// Hashes a file whose content arrives piece by piece.
pub struct FileHasher {
    hasher: sha2::Sha256,
    length: u64,
}

impl FileHasher {
    /// The content taken in so far.
    pub closed spec fn content(self) -> Seq<u8> {
        sha256_input(self.hasher)
    }

    /// The length is the content's, and within the hasher's limit.
    pub closed spec fn wf(self) -> bool {
        self.length == self.content().len() && self.length < HASH_LIMIT
    }

    /// A hasher for a file of which nothing has been read.
    pub fn new() -> (hasher: FileHasher)
        ensures
            hasher.wf(),
            hasher.content() == Seq::<u8>::empty(),
    {
        FileHasher { hasher: sha256_new(), length: 0 }
    }

    /// How many bytes have been taken in.
    pub fn length(&self) -> (length: u64)
        requires
            self.wf(),
        ensures
            length == self.content().len(),
            length < HASH_LIMIT,
    {
        self.length
    }

    /// Takes in what one read put at the start of a buffer. Reading nothing
    /// means the end of the file: the answer is whether there may be more.
    pub fn absorb(&mut self, buffer: &[u8], read: usize) -> (more: bool)
        requires
            old(self).wf(),
            read <= buffer@.len(),
            old(self).content().len() + read < HASH_LIMIT,
        ensures
            final(self).wf(),
            final(self).content() == old(self).content() + buffer@.take(read as int),
            more == (read != 0),
    {
        if read == 0 {
            assert(buffer@.take(0) =~= Seq::<u8>::empty());
            assert(self.content() + buffer@.take(0) =~= self.content());
            return false;
        }
        let piece = slice_subrange(buffer, 0, read);
        sha256_update(&mut self.hasher, piece);
        self.length = self.length + read as u64;
        true
    }

    /// The digest of the whole content, in hexadecimal.
    pub fn finish(self) -> (digest: String)
        ensures
            digest@ == hex(sha256(self.content())),
            digest@.len() == 64,
    {
        let digest = sha256_finalize(self.hasher);
        to_hex(&digest)
    }
}

/// Whether the hashing of a pack's file may read on; a cancellation stops it,
/// with its message.
pub fn may_read_on(cancel: &PackCancel) -> (go: Result<(), String>)
    ensures
        go is Ok == !cancel.requested,
        go matches Err(message) ==> message@ == "verification cancelled"@,
{
    if cancel.requested {
        Err("verification cancelled".to_owned())
    } else {
        Ok(())
    }
}

/// The character of a hexadecimal digit.
fn hex_char(d: u8) -> (c: char)
    requires
        d < 16,
    ensures
        c == hex_digit(d as int),
{
    if d < 10 {
        (48u8 + d) as char
    } else {
        (87u8 + d) as char
    }
}

/// Writes bytes in hexadecimal.
pub fn to_hex(bytes: &Vec<u8>) -> (out: String)
    ensures
        out@ == hex(bytes@),
{
    let mut out = String::new();
    let mut i: usize = 0;
    assert(out@ =~= hex(bytes@.take(0)));
    while i < bytes.len()
        invariant
            i <= bytes.len(),
            out@ == hex(bytes@.take(i as int)),
        decreases bytes.len() - i,
    {
        out.push(hex_char(bytes[i] / 16));
        out.push(hex_char(bytes[i] % 16));
        i = i + 1;
        assert(out@ =~= hex(bytes@.take(i as int)));
    }
    assert(bytes@.take(i as int) =~= bytes@);
    out
}

/// The characters of a text.
fn characters(s: &str) -> (chars: Vec<char>)
    ensures
        chars@ == s@,
{
    let mut chars: Vec<char> = Vec::new();
    for c in it: s.chars()
        invariant
            it.seq() == s@,
            chars@ == s@.take(it.index()),
    {
        chars.push(c);
        assert(s@.take(it.index() + 1) =~= s@.take(it.index()).push(c));
    }
    assert(s@.take(s@.len() as int) =~= s@);
    chars
}

/// The code of a character's ASCII lower case.
fn lower_code(c: char) -> (code: u32)
    ensures
        code == ascii_lower(c) as u32,
{
    let code = c as u32;
    if 65 <= code && code <= 90 {
        code + 32
    } else {
        code
    }
}

/// Compares two texts without regard to the case of ASCII letters.
pub fn eq_ignore_ascii_case(a: &str, b: &str) -> (same: bool)
    ensures
        same == same_ignoring_case(a@, b@),
{
    let left = characters(a);
    let right = characters(b);
    if left.len() != right.len() {
        return false;
    }
    let mut i: usize = 0;
    while i < left.len()
        invariant
            left@ == a@,
            right@ == b@,
            left.len() == right.len(),
            i <= left.len(),
            forall|j: int| 0 <= j < i ==> ascii_lower(a@[j]) == ascii_lower(b@[j]),
        decreases left.len() - i,
    {
        if lower_code(left[i]) != lower_code(right[i]) {
            return false;
        }
        i = i + 1;
    }
    true
}

/// Comparing without regard to case is an equivalence: a digest matches
/// itself, and what matches the same digest matches each other.
pub proof fn law_same_ignoring_case_is_equivalence(a: Seq<char>, b: Seq<char>, c: Seq<char>)
    ensures
        same_ignoring_case(a, a),
        same_ignoring_case(a, b) == same_ignoring_case(b, a),
        same_ignoring_case(a, b) && same_ignoring_case(b, c) ==> same_ignoring_case(a, c),
{
}

/// Different bytes have different hexadecimal texts.
pub proof fn law_hex_is_injective(a: Seq<u8>, b: Seq<u8>)
    requires
        hex(a) == hex(b),
    ensures
        a == b,
{
    assert(hex(a).len() == 2 * a.len());
    assert forall|i: int| 0 <= i < a.len() implies a[i] == b[i] by {
        let high = hex(a)[2 * i];
        let low = hex(a)[2 * i + 1];
        assert(high == hex(b)[2 * i]);
        assert(low == hex(b)[2 * i + 1]);
    }
    assert(a =~= b);
}

/// The hexadecimal text of bytes holds, for each byte in turn, the digit of its
/// high half and that of its low half, out of the sixteen in lower case.
pub proof fn law_hex_holds_both_halves(bytes: Seq<u8>, i: int)
    requires
        0 <= i < bytes.len(),
    ensures
        hex(bytes).len() == 2 * bytes.len(),
        hex(bytes)[2 * i] == "0123456789abcdef"@[bytes[i] as int / 16],
        hex(bytes)[2 * i + 1] == "0123456789abcdef"@[bytes[i] as int % 16],
{
    reveal_strlit("0123456789abcdef");
    let digits = "0123456789abcdef"@;
    assert forall|d: int| 0 <= d < 16 implies #[trigger] hex_digit(d) == digits[d] by {
        assert(d == 0 || d == 1 || d == 2 || d == 3 || d == 4 || d == 5 || d == 6 || d == 7 || d == 8
            || d == 9 || d == 10 || d == 11 || d == 12 || d == 13 || d == 14 || d == 15);
    }
    assert((2 * i) / 2 == i && (2 * i) % 2 == 0);
    assert((2 * i + 1) / 2 == i && (2 * i + 1) % 2 == 1);
    let byte = bytes[i];
    assert((byte / 16) as int == byte as int / 16);
    assert(hex(bytes)[2 * i] == hex_digit((byte / 16) as int));
    assert(hex(bytes)[2 * i + 1] == hex_digit((byte % 16) as int));
}

/// Two texts match without regard to case exactly if they are equally long and
/// every two characters in the same place are the same, or are one ASCII letter
/// in both its cases.
pub proof fn law_case_is_all_that_may_differ(a: Seq<char>, b: Seq<char>)
    ensures
        same_ignoring_case(a, b) <==> {
            &&& a.len() == b.len()
            &&& forall|i: int| #![trigger a[i]] #![trigger b[i]]
                0 <= i < a.len() ==> {
                    ||| a[i] == b[i]
                    ||| 'A' <= a[i] <= 'Z' && b[i] as int == a[i] as int + 32
                    ||| 'A' <= b[i] <= 'Z' && a[i] as int == b[i] as int + 32
                }
        },
{
    if same_ignoring_case(a, b) {
        assert forall|i: int| #![trigger a[i]] #![trigger b[i]] 0 <= i < a.len() implies {
            ||| a[i] == b[i]
            ||| 'A' <= a[i] <= 'Z' && b[i] as int == a[i] as int + 32
            ||| 'A' <= b[i] <= 'Z' && a[i] as int == b[i] as int + 32
        } by {
            assert(ascii_lower(a[i]) == ascii_lower(b[i]));
        }
    }
}

/// The limit on a hasher's content leaves out only contents whose bits cannot be
/// counted in 64 bits.
pub proof fn law_limit_is_that_of_the_bit_count(bytes: nat)
    ensures
        bytes < HASH_LIMIT <==> 8 * bytes <= 0xffff_ffff_ffff_ffff,
{
}

} // verus!
