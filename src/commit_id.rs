//! Commit identifiers as plain bytes, and their lowercase hexadecimal form.

use vstd::prelude::*;

verus! {

/// The identifier of a commit: the bytes of its content hash.
#[derive(Clone, Debug)]
pub struct CommitId {
    pub bytes: Vec<u8>,
}

impl View for CommitId {
    type V = Seq<u8>;

    open spec fn view(&self) -> Seq<u8> {
        self.bytes@
    }
}

/// The lowercase hexadecimal digit for a value below sixteen.
pub open spec fn hex_digit(n: u8) -> char {
    if n < 10 {
        (('0' as u8) + n) as char
    } else {
        (('a' as u8) + (n - 10)) as char
    }
}

/// Two lowercase hexadecimal digits for each byte, high nibble first.
pub open spec fn hex_of(b: Seq<u8>) -> Seq<char>
    decreases b.len(),
{
    if b.len() == 0 {
        Seq::empty()
    } else {
        hex_of(b.drop_last()) + seq![hex_digit(b.last() / 16), hex_digit(b.last() % 16)]
    }
}

fn hex_digit_str(n: u8) -> (r: &'static str)
    requires
        n < 16,
    ensures
        r@ == seq![hex_digit(n)],
{
    if n == 0 {
        proof {
            reveal_strlit("0");
        }
        "0"
    } else     if n == 1 {
        proof {
            reveal_strlit("1");
        }
        "1"
    } else     if n == 2 {
        proof {
            reveal_strlit("2");
        }
        "2"
    } else     if n == 3 {
        proof {
            reveal_strlit("3");
        }
        "3"
    } else     if n == 4 {
        proof {
            reveal_strlit("4");
        }
        "4"
    } else     if n == 5 {
        proof {
            reveal_strlit("5");
        }
        "5"
    } else     if n == 6 {
        proof {
            reveal_strlit("6");
        }
        "6"
    } else     if n == 7 {
        proof {
            reveal_strlit("7");
        }
        "7"
    } else     if n == 8 {
        proof {
            reveal_strlit("8");
        }
        "8"
    } else     if n == 9 {
        proof {
            reveal_strlit("9");
        }
        "9"
    } else     if n == 10 {
        proof {
            reveal_strlit("a");
        }
        "a"
    } else     if n == 11 {
        proof {
            reveal_strlit("b");
        }
        "b"
    } else     if n == 12 {
        proof {
            reveal_strlit("c");
        }
        "c"
    } else     if n == 13 {
        proof {
            reveal_strlit("d");
        }
        "d"
    } else     if n == 14 {
        proof {
            reveal_strlit("e");
        }
        "e"
    } else {
        proof {
            reveal_strlit("f");
        }
        "f"
    }
}

impl CommitId {
    /// The identifier in lowercase hexadecimal, two digits per byte.
    pub fn to_hex(&self) -> (r: String)
        ensures
            r@ == hex_of(self@),
    {
        let mut r = String::new();
        let mut i: usize = 0;
        while i < self.bytes.len()
            invariant
                i <= self.bytes.len(),
                r@ == hex_of(self@.take(i as int)),
            decreases self.bytes.len() - i,
        {
            let b = self.bytes[i];
            r.append(hex_digit_str(b / 16));
            r.append(hex_digit_str(b % 16));
            assert(self@.take(i + 1).drop_last() == self@.take(i as int));
            i = i + 1;
        }
        assert(self@.take(i as int) == self@);
        r
    }

    /// Whether two identifiers hold the same bytes.
    pub fn same_as(&self, other: &CommitId) -> (r: bool)
        ensures
            r == (self@ == other@),
    {
        if self.bytes.len() != other.bytes.len() {
            return false;
        }
        let mut i: usize = 0;
        while i < self.bytes.len()
            invariant
                i <= self.bytes.len(),
                self.bytes.len() == other.bytes.len(),
                forall|k: int| 0 <= k < i ==> self@[k] == other@[k],
            decreases self.bytes.len() - i,
        {
            if self.bytes[i] != other.bytes[i] {
                return false;
            }
            i = i + 1;
        }
        assert(self@ =~= other@);
        true
    }
}

} // verus!
