//! The version code of an Android package.
//!
//! Android orders the versions of a package by one integer. It is derived
//! from the first three numbers of a semantic version and the number of the
//! package among the packages of one build: each takes one byte, the
//! package's number the highest.
use vstd::arithmetic::div_mod::lemma_fundamental_div_mod_converse;
use vstd::prelude::*;
use crate::error::Error;
use crate::text::chars_of;

verus! {

/// The three leading numbers of a semantic version.
#[derive(Clone, Copy, Debug, PartialEq, Eq, Structural)]
pub struct VersionCode {
    pub major: u8,
    pub minor: u8,
    pub patch: u8,
}

/// Whether `c` ends a piece of a version: a dot, a dash or a plus.
pub open spec fn is_separator(c: char) -> bool {
    c == '.' || c == '-' || c == '+'
}

/// Whether `c` is a decimal digit.
pub open spec fn is_digit(c: char) -> bool {
    '0' <= c && c <= '9'
}

/// The value of the decimal digit `c`.
pub open spec fn digit_value(c: char) -> nat {
    (c as nat - '0' as nat) as nat
}

/// Whether `piece` holds decimal digits only.
pub open spec fn all_digits(piece: Seq<char>) -> bool {
    forall|i: int| 0 <= i < piece.len() ==> is_digit(#[trigger] piece[i])
}

/// The number that the digits of `piece` write.
pub open spec fn number_of(piece: Seq<char>) -> nat
    decreases piece.len(),
{
    if piece.len() == 0 {
        0
    } else {
        number_of(piece.drop_last()) * 10 + digit_value(piece.last())
    }
}

/// The byte that `piece` writes: `piece` is not empty, holds digits only,
/// and the number they write is below 256.
pub open spec fn component(piece: Seq<char>) -> Option<u8> {
    if piece.len() > 0 && all_digits(piece) && number_of(piece) <= 255 {
        Some(number_of(piece) as u8)
    } else {
        None
    }
}

/// Where the piece that starts at `from` ends: at the next separator, or at
/// the end of the text.
pub open spec fn piece_end(text: Seq<char>, from: int) -> int
    decreases text.len() - from,
{
    if from >= text.len() || is_separator(text[from]) {
        from
    } else {
        piece_end(text, from + 1)
    }
}

/// The three numbers of the version `text`: the text is cut at every
/// separator, there are at least three pieces, and each of the first three
/// writes a byte. What follows the third piece does not count.
pub open spec fn parse_semver(text: Seq<char>) -> Option<VersionCode> {
    let a = piece_end(text, 0);
    let b = piece_end(text, a + 1);
    let c = piece_end(text, b + 1);
    if a < text.len() && b < text.len() {
        match (
            component(text.subrange(0, a)),
            component(text.subrange(a + 1, b)),
            component(text.subrange(b + 1, c)),
        ) {
            (Some(major), Some(minor), Some(patch)) => Some(
                VersionCode { major: major, minor: minor, patch: patch },
            ),
            _ => None,
        }
    } else {
        None
    }
}

/// The version code of the package with the number `apk_id`: the four bytes
/// `apk_id`, `major`, `minor`, `patch`, from the highest to the lowest.
pub open spec fn version_code_of(version: VersionCode, apk_id: u8) -> nat {
    (apk_id as nat) * 16777216 + (version.major as nat) * 65536 + (version.minor as nat) * 256 + (
    version.patch as nat)
}

/// The piece that starts at `from` ends where `piece_end` says, and no
/// separator stands before that.
proof fn lemma_piece_end(text: Seq<char>, from: int)
    requires
        0 <= from <= text.len(),
    ensures
        from <= piece_end(text, from) <= text.len(),
        forall|j: int| from <= j < piece_end(text, from) ==> !is_separator(#[trigger] text[j]),
        piece_end(text, from) < text.len() ==> is_separator(text[piece_end(text, from)]),
    decreases text.len() - from,
{
    if from < text.len() && !is_separator(text[from]) {
        lemma_piece_end(text, from + 1);
    }
}

/// Reads the piece of `text` that starts at `from`: the byte it writes, if
/// it writes one, and the position where it ends.
fn read_component(text: &Vec<char>, from: usize) -> (read: (Option<u8>, usize))
    requires
        from <= text.len(),
    ensures
        read.1 == piece_end(text@, from as int),
        from <= read.1 <= text.len(),
        read.0 == component(text@.subrange(from as int, read.1 as int)),
{
    let mut i: usize = from;
    let mut value: u32 = 0;
    let mut digits: bool = true;
    let mut small: bool = true;
    while i < text.len() && !(text[i] == '.' || text[i] == '-' || text[i] == '+')
        invariant
            from <= i <= text.len(),
            piece_end(text@, from as int) == piece_end(text@, i as int),
            digits == all_digits(text@.subrange(from as int, i as int)),
            digits ==> small == (number_of(text@.subrange(from as int, i as int)) <= 255),
            digits && small ==> value == number_of(text@.subrange(from as int, i as int)),
        decreases text.len() - i,
    {
        let c = text[i];
        proof {
            let before = text@.subrange(from as int, i as int);
            let after = text@.subrange(from as int, i + 1);
            assert(after.drop_last() == before);
            assert(after.last() == c);
            assert(all_digits(after) == (all_digits(before) && is_digit(c))) by {
                if all_digits(before) && is_digit(c) {
                    assert forall|j: int| 0 <= j < after.len() implies is_digit(
                        #[trigger] after[j],
                    ) by {
                        if j < before.len() {
                            assert(after[j] == before[j]);
                        }
                    }
                } else if all_digits(after) {
                    assert(is_digit(after[after.len() - 1]));
                    assert forall|j: int| 0 <= j < before.len() implies is_digit(
                        #[trigger] before[j],
                    ) by {
                        assert(before[j] == after[j]);
                    }
                }
            }
        }
        if digits && '0' <= c && c <= '9' {
            if small {
                let d: u32 = c as u32 - '0' as u32;
                assert(d == digit_value(c));
                value = value * 10 + d;
                if value > 255 {
                    small = false;
                }
            }
        } else {
            digits = false;
        }
        i += 1;
    }
    proof {
        lemma_piece_end(text@, i as int);
    }
    let read = if digits && small && i > from {
        Some(value as u8)
    } else {
        None
    };
    (read, i)
}

impl VersionCode {
    /// A version with the three numbers given.
    pub fn new(major: u8, minor: u8, patch: u8) -> (version: Self)
        ensures
            version == (VersionCode { major: major, minor: minor, patch: patch }),
    {
        Self { major, minor, patch }
    }

    /// Reads the three leading numbers of a semantic version. The version
    /// is refused unless it has three pieces that each write a byte.
    pub fn from_semver(version: &str) -> (read: Result<Self, Error>)
        ensures
            match parse_semver(version@) {
                Some(code) => read == Ok::<Self, Error>(code),
                None => read == Err::<Self, Error>(Error::InvalidSemver),
            },
    {
        let text = chars_of(version);
        let (major, a) = read_component(&text, 0);
        if a >= text.len() {
            return Err(Error::InvalidSemver);
        }
        let (minor, b) = read_component(&text, a + 1);
        if b >= text.len() {
            return Err(Error::InvalidSemver);
        }
        let (patch, c) = read_component(&text, b + 1);
        match (major, minor, patch) {
            (Some(major), Some(minor), Some(patch)) => Ok(Self { major, minor, patch }),
            _ => Err(Error::InvalidSemver),
        }
    }

    /// The version code of the package with the number `apk_id`.
    pub fn to_code(&self, apk_id: u8) -> (code: u32)
        ensures
            code == version_code_of(*self, apk_id),
    {
        let high: u32 = apk_id as u32 * 16777216;
        let major: u32 = self.major as u32 * 65536;
        let minor: u32 = self.minor as u32 * 256;
        high + major + minor + self.patch as u32
    }
}

/// The version code holds the four numbers it was made of: each can be
/// read back from it, so different versions or package numbers never share a
/// code.
pub proof fn lemma_version_code_round_trip(version: VersionCode, apk_id: u8)
    ensures
        version_code_of(version, apk_id) <= u32::MAX,
        version_code_of(version, apk_id) / 16777216 == apk_id,
        (version_code_of(version, apk_id) / 65536) % 256 == version.major,
        (version_code_of(version, apk_id) / 256) % 256 == version.minor,
        version_code_of(version, apk_id) % 256 == version.patch,
{
    let code = version_code_of(version, apk_id) as int;
    let a = apk_id as int;
    let b = version.major as int;
    let c = version.minor as int;
    let d = version.patch as int;
    lemma_fundamental_div_mod_converse(code, 16777216, a, b * 65536 + c * 256 + d);
    lemma_fundamental_div_mod_converse(code, 65536, a * 256 + b, c * 256 + d);
    lemma_fundamental_div_mod_converse(a * 256 + b, 256, a, b);
    lemma_fundamental_div_mod_converse(code, 256, a * 65536 + b * 256 + c, d);
    lemma_fundamental_div_mod_converse(a * 65536 + b * 256 + c, 256, a * 256 + b, c);
}

/// The version `1.2.3` has the numbers 1, 2 and 3.
pub proof fn lemma_semver_1_2_3()
    ensures
        parse_semver("1.2.3"@) == Some(VersionCode { major: 1, minor: 2, patch: 3 }),
        version_code_of(VersionCode { major: 1, minor: 2, patch: 3 }, 1) == 16843267,
{
    reveal_strlit("1.2.3");
    let text = "1.2.3"@;
    assert(text.len() == 5);
    assert(text[0] == '1' && text[1] == '.' && text[2] == '2' && text[3] == '.' && text[4] == '3');
    reveal_with_fuel(piece_end, 3);
    assert(piece_end(text, 0) == 1);
    assert(piece_end(text, 2) == 3);
    assert(piece_end(text, 4) == 5);
    let one = text.subrange(0, 1);
    let two = text.subrange(2, 3);
    let three = text.subrange(4, 5);
    reveal_with_fuel(number_of, 2);
    assert(one.drop_last().len() == 0 && two.drop_last().len() == 0 && three.drop_last().len()
        == 0);
    assert(one.last() == '1' && two.last() == '2' && three.last() == '3');
    assert(number_of(one) == 1 && number_of(two) == 2 && number_of(three) == 3);
    assert(component(one) == Some(1u8));
    assert(component(two) == Some(2u8));
    assert(component(three) == Some(3u8));
}

} // verus!
