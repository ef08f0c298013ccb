use vstd::prelude::*;

verus! {

/// The file format in which a session is downloaded.
#[derive(Clone, Copy, Debug, PartialEq, Eq, Structural)]
pub enum ExportFormat {
    TCX,
    GPX,
    CSV,
}

/// The lower-case token of a format, used in the download path and as the
/// file extension.
pub open spec fn format_token(f: ExportFormat) -> Seq<char> {
    match f {
        ExportFormat::TCX => seq!['t', 'c', 'x'],
        ExportFormat::GPX => seq!['g', 'p', 'x'],
        ExportFormat::CSV => seq!['c', 's', 'v'],
    }
}

/// The upper-case spelling of a format's token.
pub open spec fn format_token_upper(f: ExportFormat) -> Seq<char> {
    match f {
        ExportFormat::TCX => seq!['T', 'C', 'X'],
        ExportFormat::GPX => seq!['G', 'P', 'X'],
        ExportFormat::CSV => seq!['C', 'S', 'V'],
    }
}

/// `s` names format `f`, in any mix of ASCII cases.
pub open spec fn names_format(s: Seq<char>, f: ExportFormat) -> bool {
    &&& s.len() == 3
    &&& forall|i: int|
        0 <= i < 3 ==> #[trigger] s[i] == format_token(f)[i] || s[i] == format_token_upper(f)[i]
}

fn letter_is(c: char, lower: char, upper: char) -> (r: bool)
    ensures
        r == (c == lower || c == upper),
{
    c == lower || c == upper
}

impl ExportFormat {
    pub fn as_str(&self) -> (r: &'static str)
        ensures
            r@ == format_token(*self),
    {
        match self {
            ExportFormat::TCX => {
                proof { reveal_strlit("tcx"); }
                "tcx"
            },
            ExportFormat::GPX => {
                proof { reveal_strlit("gpx"); }
                "gpx"
            },
            ExportFormat::CSV => {
                proof { reveal_strlit("csv"); }
                "csv"
            },
        }
    }

    /// The format that `s` names, ignoring ASCII case.
    pub fn from_str(s: &str) -> (r: Result<ExportFormat, &'static str>)
        ensures
            r matches Ok(f) ==> names_format(s@, f),
            r is Err <==> (forall|f: ExportFormat| !names_format(s@, f)),
            r matches Err(m) ==> m@ == "unknown format"@,
    {
        if s.unicode_len() != 3 {
            return Err("unknown format");
        }
        let a = s.get_char(0);
        let b = s.get_char(1);
        let c = s.get_char(2);
        if letter_is(a, 't', 'T') && letter_is(b, 'c', 'C') && letter_is(c, 'x', 'X') {
            assert(names_format(s@, ExportFormat::TCX));
            Ok(ExportFormat::TCX)
        } else if letter_is(a, 'g', 'G') && letter_is(b, 'p', 'P') && letter_is(c, 'x', 'X') {
            assert(names_format(s@, ExportFormat::GPX));
            Ok(ExportFormat::GPX)
        } else if letter_is(a, 'c', 'C') && letter_is(b, 's', 'S') && letter_is(c, 'v', 'V') {
            assert(names_format(s@, ExportFormat::CSV));
            Ok(ExportFormat::CSV)
        } else {
            assert forall|f: ExportFormat| !names_format(s@, f) by {
                if names_format(s@, f) {
                    assert(s@[0] == format_token(f)[0] || s@[0] == format_token_upper(f)[0]);
                    assert(s@[1] == format_token(f)[1] || s@[1] == format_token_upper(f)[1]);
                    assert(s@[2] == format_token(f)[2] || s@[2] == format_token_upper(f)[2]);
                }
            }
            Err("unknown format")
        }
    }
}

/// Distinct formats have distinct tokens.
pub proof fn lemma_token_injective(f: ExportFormat, g: ExportFormat)
    requires
        format_token(f) == format_token(g),
    ensures
        f == g,
{
    assert(format_token(f)[0] == format_token(g)[0]);
    assert(format_token(f)[1] == format_token(g)[1]);
}

} // verus!
