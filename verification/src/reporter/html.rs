//! The parts of the HTML report that are computed: colour classes and file
//! names.
use vstd::prelude::*;

use crate::instruction::digit_char;
use crate::reporter::OutcomeCounts;

verus! {

/// The colour class that a summary gets.
#[derive(PartialEq, Eq, Debug, Clone, Copy, Structural)]
pub enum BulmaClass {
    Success,
    Warning,
    Danger,
    Invalid,
}

/// The name of a colour class, as the `class` attribute takes it.
pub open spec fn bulma_class_text(b: BulmaClass) -> Seq<char> {
    match b {
        BulmaClass::Success => "is-success"@,
        BulmaClass::Warning => "is-warning"@,
        BulmaClass::Danger => "is-danger"@,
        BulmaClass::Invalid => ""@,
    }
}

impl BulmaClass {
    /// Red if any mutant survived, green if all of them were killed, yellow
    /// otherwise (some timed out or failed).
    pub fn from_counts(a: OutcomeCounts) -> (r: Self)
        requires
            i32::MIN <= a.alive + a.error + a.killed + a.timeout <= i32::MAX,
        ensures
            r == if a.alive > 0 {
                BulmaClass::Danger
            } else if a.killed == a.alive + a.error + a.killed + a.timeout {
                BulmaClass::Success
            } else {
                BulmaClass::Warning
            },
    {
        let total: i64 = a.alive as i64 + a.error as i64 + a.killed as i64 + a.timeout as i64;
        if a.alive > 0 {
            BulmaClass::Danger
        } else if a.killed as i64 == total {
            BulmaClass::Success
        } else {
            BulmaClass::Warning
        }
    }

    /// The name of the class for the `class` attribute.
    pub fn text(&self) -> (s: &'static str)
        ensures
            s@ == bulma_class_text(*self),
    {
        match self {
            BulmaClass::Success => "is-success",
            BulmaClass::Warning => "is-warning",
            BulmaClass::Danger => "is-danger",
            BulmaClass::Invalid => "",
        }
    }
}

/// What `md5::compute` returns for `data`: the 16 bytes of its MD5 digest.
pub uninterp spec fn md5_digest(data: Seq<u8>) -> Seq<u8>;

/// `md5::compute`: the MD5 digest of the bytes, 16 bytes long.
#[verifier::external_body]
fn md5_compute(data: &Vec<u8>) -> (r: Vec<u8>)
    ensures
        r@ == md5_digest(data@),
        r@.len() == 16,
{
    md5::compute(data).0.to_vec()
}

/// What `Path::file_name` returns for a path: its final component, if there
/// is one, as a string.
pub uninterp spec fn path_file_name(path: Seq<char>) -> Option<Seq<char>>;

/// `Path::file_name`: the final component of the path, if there is one.
#[verifier::external_body]
fn file_name(path: &str) -> (r: Option<String>)
    ensures
        match r {
            Some(s) => path_file_name(path@) == Some(s@),
            None => path_file_name(path@) is None,
        },
{
    std::path::Path::new(path).file_name().and_then(|n| n.to_str()).map(String::from)
}

/// A hexadecimal digit, lower case.
pub open spec fn hex_digit(d: nat) -> char {
    if d < 10 {
        digit_char(d)
    } else if d == 10 {
        'a'
    } else if d == 11 {
        'b'
    } else if d == 12 {
        'c'
    } else if d == 13 {
        'd'
    } else if d == 14 {
        'e'
    } else {
        'f'
    }
}

/// Bytes as lower-case hexadecimal, two digits per byte.
pub open spec fn hex_text(bytes: Seq<u8>) -> Seq<char>
    decreases bytes.len(),
{
    if bytes.len() == 0 {
        Seq::empty()
    } else {
        hex_text(bytes.drop_last()) + seq![
            hex_digit((bytes.last() / 16) as nat),
            hex_digit((bytes.last() % 16) as nat),
        ]
    }
}

fn hex_digit_exec(d: u8) -> (c: &'static str)
    requires
        d < 16,
    ensures
        c@ == seq![hex_digit(d as nat)],
{
    let c = match d {
        0 => "0",
        1 => "1",
        2 => "2",
        3 => "3",
        4 => "4",
        5 => "5",
        6 => "6",
        7 => "7",
        8 => "8",
        9 => "9",
        10 => "a",
        11 => "b",
        12 => "c",
        13 => "d",
        14 => "e",
        _ => "f",
    };
    proof {
        reveal_strlit("0");
        reveal_strlit("1");
        reveal_strlit("2");
        reveal_strlit("3");
        reveal_strlit("4");
        reveal_strlit("5");
        reveal_strlit("6");
        reveal_strlit("7");
        reveal_strlit("8");
        reveal_strlit("9");
        reveal_strlit("a");
        reveal_strlit("b");
        reveal_strlit("c");
        reveal_strlit("d");
        reveal_strlit("e");
        reveal_strlit("f");
    }
    c
}

/// Write bytes as lower-case hexadecimal.
pub fn hex_string(bytes: &Vec<u8>) -> (s: String)
    ensures
        s@ == hex_text(bytes@),
{
    let mut s = String::new();
    let mut i: usize = 0;
    while i < bytes.len()
        invariant
            i <= bytes@.len(),
            s@ == hex_text(bytes@.subrange(0, i as int)),
        decreases bytes.len() - i,
    {
        let b = bytes[i];
        let hi = hex_digit_exec(b / 16);
        let lo = hex_digit_exec(b % 16);
        proof {
            assert(bytes@.subrange(0, i + 1).drop_last() =~= bytes@.subrange(0, i as int));
        }
        let ghost before = s@;
        s.append(hi);
        s.append(lo);
        assert(s@ =~= before + seq![hex_digit((b / 16) as nat), hex_digit((b % 16) as nat)]);
        i = i + 1;
    }
    assert(bytes@.subrange(0, i as int) =~= bytes@);
    s
}

/// The name of the HTML page for source file `file`: its file name, a
/// hyphen, the MD5 digest of the whole path in hexadecimal, and `.html`.
pub open spec fn html_filename(file: Seq<char>) -> Option<Seq<char>> {
    match path_file_name(file) {
        Some(name) => Some(name + "-"@ + hex_text(md5_digest(vstd::utf8::encode_utf8(file))) + ".html"@),
        None => None,
    }
}

/// Generate the name of the HTML page of a source file: the file name of
/// the path followed by the hash of the full path; none when the path has
/// no file name.
pub fn generate_html_filename(file: &str) -> (r: Option<String>)
    ensures
        match r {
            Some(s) => html_filename(file@) == Some(s@),
            None => html_filename(file@) is None,
        },
{
    let name = match file_name(file) {
        Some(n) => n,
        None => {
            return None;
        },
    };
    let bytes = file.as_bytes_vec();
    let digest = md5_compute(&bytes);
    let hex = hex_string(&digest);
    Some(name.concat("-").concat(hex.as_str()).concat(".html"))
}

} // verus!
