//! Commit identifiers: fixed-length content hashes, handled as opaque values.

use vstd::prelude::*;

verus! {

/// Number of raw bytes in a commit identifier.
pub const COMMIT_ID_BYTES: usize = 20;

/// Number of hexadecimal digits naming a commit identifier.
pub const COMMIT_ID_HEX_LEN: usize = 40;

pub open spec fn is_hex_digit(c: char) -> bool {
    (48 <= c as int && c as int <= 57)  // '0' ..= '9'
    || (97 <= c as int && c as int <= 102)  // 'a' ..= 'f'
    || (65 <= c as int && c as int <= 70)  // 'A' ..= 'F'
}

pub open spec fn hex_digit_value(c: char) -> int {
    if 48 <= c as int && c as int <= 57 {
        c as int - 48
    } else if 97 <= c as int && c as int <= 102 {
        c as int - 87
    } else {
        c as int - 55
    }
}

/// A well-formed textual commit identifier: exactly 40 hex digits.
pub open spec fn commit_hex_valid(s: Seq<char>) -> bool {
    s.len() == 40 && forall|i: int| 0 <= i < s.len() ==> is_hex_digit(#[trigger] s[i])
}

/// The raw byte at position `i` encoded by the hex digits at `2 * i` and `2 * i + 1`.
pub open spec fn hex_byte_at(s: Seq<char>, i: int) -> int {
    16 * hex_digit_value(s[2 * i]) + hex_digit_value(s[2 * i + 1])
}

/// A commit identifier, stored as its raw bytes.
///
/// Values of this type are opaque content hashes; the engine never interprets
/// them structurally, it only compares them and hands them to the object store.
#[derive(Clone, Debug)]
pub struct CommitId {
    pub(crate) bytes: Vec<u8>,
}

impl View for CommitId {
    type V = Seq<u8>;

    closed spec fn view(&self) -> Seq<u8> {
        self.bytes@
    }
}

impl CommitId {
    /// A well-formed identifier holds exactly 20 raw bytes.
    pub open spec fn wf(&self) -> bool {
        self@.len() == 20
    }

    /// Decode one hexadecimal digit.
    fn hex_val(c: char) -> (r: Option<u8>)
        ensures
            r is Some <==> is_hex_digit(c),
            r matches Some(v) ==> v as int == hex_digit_value(c),
    {
        let n = c as u32;
        if 48 <= n && n <= 57 {
            Some((n - 48) as u8)
        } else if 97 <= n && n <= 102 {
            Some((n - 87) as u8)
        } else if 65 <= n && n <= 70 {
            Some((n - 55) as u8)
        } else {
            None
        }
    }

    /// Parse a commit identifier from its fixed-length hexadecimal form.
    ///
    /// Returns `None` exactly when the input is not 40 hex digits.
    pub fn from_hex(s: &str) -> (r: Option<CommitId>)
        ensures
            r is Some <==> commit_hex_valid(s@),
            r matches Some(id) ==> id.wf() && forall|i: int|
                0 <= i < 20 ==> #[trigger] id@[i] as int == hex_byte_at(s@, i),
    {
        let n = s.unicode_len();
        if n != 40 {
            return None;
        }
        let mut bytes: Vec<u8> = Vec::new();
        let mut i: usize = 0;
        while i < 20
            invariant
                0 <= i <= 20,
                s@.len() == 40,
                bytes@.len() == i,
                forall|j: int| 0 <= j < 2 * i ==> is_hex_digit(#[trigger] s@[j]),
                forall|j: int| 0 <= j < i ==> #[trigger] bytes@[j] as int == hex_byte_at(s@, j),
            decreases 20 - i,
        {
            let hi = s.get_char(2 * i);
            let lo = s.get_char(2 * i + 1);
            let hv = match Self::hex_val(hi) {
                Some(v) => v,
                None => {
                    assert(!is_hex_digit(s@[2 * i as int]));
                    return None;
                },
            };
            let lv = match Self::hex_val(lo) {
                Some(v) => v,
                None => {
                    assert(!is_hex_digit(s@[2 * i as int + 1]));
                    return None;
                },
            };
            bytes.push(16 * hv + lv);
            i = i + 1;
        }
        Some(CommitId { bytes })
    }

    /// Whether two identifiers name the same commit.
    pub fn matches(&self, other: &CommitId) -> (r: bool)
        ensures
            r <==> self@ =~= other@,
    {
        if self.bytes.len() != other.bytes.len() {
            return false;
        }
        let n = self.bytes.len();
        let mut i: usize = 0;
        while i < n
            invariant
                0 <= i <= n,
                n == self@.len(),
                n == other@.len(),
                forall|j: int| 0 <= j < i ==> self@[j] == other@[j],
            decreases n - i,
        {
            if self.bytes[i] != other.bytes[i] {
                return false;
            }
            i = i + 1;
        }
        true
    }
}

} // verus!
