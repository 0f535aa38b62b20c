use vstd::prelude::*;
use vstd::string::StrSliceExecFns;
use vstd::string::StringExecFns;
use crate::clock::{parse_rfc3339, rfc3339_instant};

verus! {

/// Why an operation on the stored session could not be carried out.
#[derive(Clone, Copy, Debug, PartialEq, Eq, Structural)]
pub enum PomError {
    /// No session has been stored.
    NotFound,
    /// The stored document lacks a field or holds an unreadable value.
    Corrupt,
    /// The end of the session lies beyond the instants a date-time can hold.
    OutOfRange,
}

/// The one session record: whether it runs, and when it ends, as RFC 3339 text
/// (empty once the session has been stopped).
#[derive(Clone, Debug)]
pub struct Pom {
    pub running: bool,
    pub ends_at: String,
}

/// What a `Pom` holds, as mathematical values.
pub struct PomView {
    pub running: bool,
    pub ends_at: Seq<char>,
}

impl View for Pom {
    type V = PomView;

    open spec fn view(&self) -> PomView {
        PomView { running: self.running, ends_at: self.ends_at@ }
    }
}

/// The key of the first line, with its separator.
pub open spec fn running_key() -> Seq<char> {
    seq!['r', 'u', 'n', 'n', 'i', 'n', 'g', ':', ' ']
}

/// The key of the second line, with its separator.
pub open spec fn ends_key() -> Seq<char> {
    seq!['e', 'n', 'd', 's', '_', 'a', 't', ':', ' ']
}

/// The first line of a document: the running flag.
pub open spec fn running_line(running: bool) -> Seq<char> {
    if running {
        running_key() + seq!['t', 'r', 'u', 'e', '\n']
    } else {
        running_key() + seq!['f', 'a', 'l', 's', 'e', '\n']
    }
}

/// The document that stores a session: two lines, the flag, then the end
/// time as a single-quoted scalar.
pub open spec fn document(p: PomView) -> Seq<char> {
    running_line(p.running) + ends_key() + seq!['\''] + p.ends_at + seq!['\'', '\n']
}

/// An end time that the document can hold and give back unchanged: it has no
/// line break and no quote (an RFC 3339 date-time has neither).
pub open spec fn storable(s: Seq<char>) -> bool {
    !s.contains('\n') && !s.contains('\'')
}

/// `t` holds `pat` from position `start` on.
pub open spec fn has_prefix_at(t: Seq<char>, start: int, pat: Seq<char>) -> bool {
    0 <= start && start + pat.len() <= t.len() && t.subrange(start, start + pat.len()) == pat
}

/// The value of the end-time field: either single-quoted, with no quote
/// inside, or plain and not empty.
pub open spec fn scalar_value(v: Seq<char>) -> Option<Seq<char>> {
    if v.len() >= 2 && v[0] == '\'' && v.last() == '\'' {
        let inner = v.subrange(1, v.len() - 1);
        if inner.contains('\'') {
            None
        } else {
            Some(inner)
        }
    } else if v.len() > 0 && v[0] != '\'' {
        Some(v)
    } else {
        None
    }
}

/// The end-time field read from what follows the first line: its key, then a
/// value on one line, with or without a final line break.
pub open spec fn ends_field(t: Seq<char>, start: int) -> Option<Seq<char>> {
    if has_prefix_at(t, start, ends_key()) {
        let line = t.subrange(start + 9, t.len() as int);
        let v = if line.len() > 0 && line.last() == '\n' {
            line.drop_last()
        } else {
            line
        };
        if v.contains('\n') {
            None
        } else {
            scalar_value(v)
        }
    } else {
        None
    }
}

/// The session that a document holds; `None` where it is malformed.
pub open spec fn parse_document(t: Seq<char>) -> Option<PomView> {
    let running = if has_prefix_at(t, 0, running_line(true)) {
        Some(true)
    } else if has_prefix_at(t, 0, running_line(false)) {
        Some(false)
    } else {
        None
    };
    match running {
        Some(b) => match ends_field(t, running_line(b).len() as int) {
            Some(e) => Some(PomView { running: b, ends_at: e }),
            None => None,
        },
        None => None,
    }
}

/// The characters of a text, one per element.
/// The end of a record is one chrono reads as a date-time wherever it matters:
/// when the session runs, or when the end is not empty.
pub open spec fn readable_end(p: PomView) -> bool {
    (p.running || p.ends_at.len() > 0) ==> rfc3339_instant(p.ends_at) is Some
}

/// The session that a stored document holds: `Corrupt` where the document is
/// malformed or its end is no date-time.
pub open spec fn read_document(t: Seq<char>) -> Result<PomView, PomError> {
    match parse_document(t) {
        Some(p) => if readable_end(p) {
            Ok(p)
        } else {
            Err(PomError::Corrupt)
        },
        None => Err(PomError::Corrupt),
    }
}

fn chars_of(s: &str) -> (r: Vec<char>)
    ensures
        r@ == s@,
{
    let n = s.unicode_len();
    let mut r: Vec<char> = Vec::new();
    let mut i: usize = 0;
    while i < n
        invariant
            n == s@.len(),
            i <= n,
            r@ == s@.subrange(0, i as int),
        decreases n - i,
    {
        r.push(s.get_char(i));
        i = i + 1;
    }
    assert(r@ =~= s@);
    r
}

/// Whether `t` holds `pat` from position `start` on.
fn matches_at(t: &Vec<char>, start: usize, pat: &Vec<char>) -> (r: bool)
    ensures
        r == has_prefix_at(t@, start as int, pat@),
{
    if start > t.len() || pat.len() > t.len() - start {
        return false;
    }
    let mut i: usize = 0;
    while i < pat.len()
        invariant
            start + pat.len() <= t.len(),
            i <= pat.len(),
            forall|k: int| 0 <= k < i ==> t@[start + k] == pat@[k],
        decreases pat.len() - i,
    {
        if t[start + i] != pat[i] {
            assert(t@.subrange(start as int, start + pat.len())[i as int] != pat@[i as int]);
            return false;
        }
        i = i + 1;
    }
    assert(t@.subrange(start as int, start + pat.len()) =~= pat@);
    true
}

/// Whether `c` occurs in `t` between positions `from` and `to`.
fn has_char(t: &Vec<char>, from: usize, to: usize, c: char) -> (r: bool)
    requires
        from <= to <= t.len(),
    ensures
        r == t@.subrange(from as int, to as int).contains(c),
{
    let mut i: usize = from;
    while i < to
        invariant
            from <= i <= to <= t.len(),
            forall|k: int| from <= k < i ==> t@[k] != c,
        decreases to - i,
    {
        if t[i] == c {
            assert(t@.subrange(from as int, to as int)[i - from] == c);
            return true;
        }
        i = i + 1;
    }
    assert forall|k: int| 0 <= k < to - from implies t@.subrange(from as int, to as int)[k] != c by {
        assert(t@.subrange(from as int, to as int)[k] == t@[from + k]);
    }
    false
}

/// The one-line description of a session: its flag and its end.
pub open spec fn description(p: PomView) -> Seq<char> {
    seq!['S', 't', 'a', 't', 'u', 's', ':', ' '] + bool_text(p.running) + seq![
        ';',
        ' ',
        'T',
        'i',
        'm',
        'e',
        ' ',
        't',
        'o',
        ' ',
        'e',
        'n',
        'd',
        ':',
        ' ',
    ] + p.ends_at
}

pub open spec fn bool_text(b: bool) -> Seq<char> {
    if b {
        seq!['t', 'r', 'u', 'e']
    } else {
        seq!['f', 'a', 'l', 's', 'e']
    }
}

impl Pom {
    /// The one-line description of this session.
    pub fn to_string(&self) -> (r: String)
        ensures
            r@ == description(self@),
    {
        let mut s = String::new();
        s.append("Status: ");
        s.append(if self.running { "true" } else { "false" });
        s.append("; Time to end: ");
        s.append(self.ends_at.as_str());
        proof {
            reveal_strlit("Status: ");
            reveal_strlit("true");
            reveal_strlit("false");
            reveal_strlit("; Time to end: ");
        }
        assert(s@ =~= description(self@));
        s
    }

    /// The document that stores this session.
    pub fn serialize(&self) -> (r: String)
        ensures
            r@ == document(self@),
    {
        let mut s = String::new();
        if self.running {
            s.append("running: true\n");
            proof {
                reveal_strlit("running: true\n");
            }
        } else {
            s.append("running: false\n");
            proof {
                reveal_strlit("running: false\n");
            }
        }
        s.append("ends_at: '");
        s.append(self.ends_at.as_str());
        s.append("'\n");
        proof {
            reveal_strlit("ends_at: '");
            reveal_strlit("'\n");
        }
        assert(s@ =~= document(self@));
        s
    }

    /// Reads a session back from its document; `Corrupt` where the document
    /// is malformed or holds an end that is no date-time.
    pub fn deserialize(text: &str) -> (r: Result<Pom, PomError>)
        ensures
            match r {
                Ok(p) => read_document(text@) == Ok::<PomView, PomError>(p@),
                Err(e) => read_document(text@) == Err::<PomView, PomError>(e),
            },
    {
        let p = match Pom::parse_fields(text) {
            Some(p) => p,
            None => {
                return Err(PomError::Corrupt);
            },
        };
        if p.running || p.ends_at.as_str().unicode_len() > 0 {
            if parse_rfc3339(p.ends_at.as_str()).is_none() {
                return Err(PomError::Corrupt);
            }
        }
        Ok(p)
    }

    /// The fields of a document, read as text; `None` where it is malformed.
    fn parse_fields(text: &str) -> (r: Option<Pom>)
        ensures
            match r {
                Some(p) => parse_document(text@) == Some(p@),
                None => parse_document(text@) is None,
            },
    {
        let t = chars_of(text);
        let on = chars_of("running: true\n");
        let off = chars_of("running: false\n");
        let key = chars_of("ends_at: ");
        proof {
            reveal_strlit("running: true\n");
            reveal_strlit("running: false\n");
            reveal_strlit("ends_at: ");
            assert(on@ =~= running_line(true));
            assert(off@ =~= running_line(false));
            assert(key@ =~= ends_key());
        }
        let running: bool;
        let start: usize;
        if matches_at(&t, 0, &on) {
            running = true;
            start = on.len();
        } else if matches_at(&t, 0, &off) {
            running = false;
            start = off.len();
        } else {
            return None;
        }
        if !matches_at(&t, start, &key) {
            return None;
        }
        let vs: usize = start + key.len();
        let mut ve: usize = t.len();
        if ve > vs && t[ve - 1] == '\n' {
            ve = ve - 1;
        }
        let ghost line = t@.subrange(vs as int, t@.len() as int);
        let ghost v = t@.subrange(vs as int, ve as int);
        assert(v =~= (if line.len() > 0 && line.last() == '\n' {
            line.drop_last()
        } else {
            line
        }));
        if has_char(&t, vs, ve, '\n') {
            return None;
        }
        if ve - vs >= 2 && t[vs] == '\'' && t[ve - 1] == '\'' {
            assert(v.subrange(1, v.len() - 1) =~= t@.subrange(vs + 1, ve - 1));
            if has_char(&t, vs + 1, ve - 1, '\'') {
                return None;
            }
            let inner = text.substring_char(vs + 1, ve - 1);
            Some(Pom { running, ends_at: String::from_str(inner) })
        } else if ve > vs && t[vs] != '\'' {
            let plain = text.substring_char(vs, ve);
            Some(Pom { running, ends_at: String::from_str(plain) })
        } else {
            None
        }
    }
}

} // verus!
