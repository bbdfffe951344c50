//! The git smart-HTTP bridge: the CGI environment handed to the backend process,
//! and the reading of what the backend writes back (a header block, a blank
//! line, then the raw body).
use vstd::prelude::*;

verus! {

pub open spec fn newline() -> u8 {
    10
}

pub open spec fn carriage_return() -> u8 {
    13
}

/// `Status`
pub open spec fn status_name() -> Seq<u8> {
    seq![83u8, 116, 97, 116, 117, 115]
}

/// `Content-Type`
pub open spec fn content_type_name() -> Seq<u8> {
    seq![67u8, 111, 110, 116, 101, 110, 116, 45, 84, 121, 112, 101]
}

/// `Not Found`
pub open spec fn not_found_text() -> Seq<u8> {
    seq![78u8, 111, 116, 32, 70, 111, 117, 110, 100]
}

/// `application/`
pub open spec fn application_prefix() -> Seq<u8> {
    seq![97u8, 112, 112, 108, 105, 99, 97, 116, 105, 111, 110, 47]
}

/// The number of bytes of `s` before the first `b` (all of them when `b` is absent).
pub open spec fn prefix_len(s: Seq<u8>, b: u8) -> nat
    decreases s.len(),
{
    if s.len() == 0 {
        0
    } else if s[0] == b {
        0
    } else {
        1 + prefix_len(s.drop_first(), b)
    }
}

/// The number of bytes of `s` after the last `b` (all of them when `b` is absent).
pub open spec fn suffix_len(s: Seq<u8>, b: u8) -> nat
    decreases s.len(),
{
    if s.len() == 0 {
        0
    } else if s.last() == b {
        0
    } else {
        1 + suffix_len(s.drop_last(), b)
    }
}

/// A line without its line feed, and without the carriage return before it.
pub open spec fn line_text(raw: Seq<u8>) -> Seq<u8> {
    if raw.len() > 0 && raw.last() == carriage_return() {
        raw.drop_last()
    } else {
        raw
    }
}

/// `Key: Value` read as its key and its value; `None` for a line with no colon.
pub open spec fn field_of(line: Seq<u8>) -> Option<(Seq<u8>, Seq<u8>)> {
    let i = prefix_len(line, 58);
    if i < line.len() {
        let rest = line.subrange(i + 1 as int, line.len() as int);
        let value = if rest.len() > 0 && rest[0] == 32 {
            rest.drop_first()
        } else {
            rest
        };
        Some((line.subrange(0, i as int), value))
    } else {
        None
    }
}

/// The header fields of the block that starts at `pos`, in the order written.
pub open spec fn header_fields_from(out: Seq<u8>, pos: nat) -> Seq<(Seq<u8>, Seq<u8>)>
    decreases out.len() - pos,
{
    if pos >= out.len() {
        seq![]
    } else {
        let end = pos + prefix_len(out.subrange(pos as int, out.len() as int), newline());
        let line = line_text(out.subrange(pos as int, end as int));
        if line.len() == 0 {
            seq![]
        } else {
            let rest = if end < out.len() {
                header_fields_from(out, end + 1)
            } else {
                seq![]
            };
            match field_of(line) {
                Some(f) => seq![f] + rest,
                None => rest,
            }
        }
    }
}

/// Where the body begins: just past the blank line that ends the header block,
/// or at the end of the output when no blank line comes.
pub open spec fn body_start_from(out: Seq<u8>, pos: nat) -> nat
    decreases out.len() - pos,
{
    if pos >= out.len() {
        out.len()
    } else {
        let end = pos + prefix_len(out.subrange(pos as int, out.len() as int), newline());
        let line = line_text(out.subrange(pos as int, end as int));
        if line.len() == 0 {
            if end < out.len() {
                end + 1
            } else {
                out.len()
            }
        } else if end < out.len() {
            body_start_from(out, end + 1)
        } else {
            out.len()
        }
    }
}

/// The value of the first field named `name`.
pub open spec fn first_value(fields: Seq<(Seq<u8>, Seq<u8>)>, name: Seq<u8>) -> Option<Seq<u8>>
    decreases fields.len(),
{
    if fields.len() == 0 {
        None
    } else if fields[0].0 == name {
        Some(fields[0].1)
    } else {
        first_value(fields.drop_first(), name)
    }
}

pub open spec fn is_digit(b: u8) -> bool {
    48 <= b <= 57
}

/// The number that a string of decimal digits writes.
pub open spec fn decimal_of(s: Seq<u8>) -> nat
    decreases s.len(),
{
    if s.len() == 0 {
        0
    } else {
        decimal_of(s.drop_last()) * 10 + (s.last() - 48) as nat
    }
}

/// The number of decimal digits that `s` begins with.
pub open spec fn digit_prefix_len(s: Seq<u8>) -> nat
    decreases s.len(),
{
    if s.len() == 0 || !is_digit(s[0]) {
        0
    } else {
        1 + digit_prefix_len(s.drop_first())
    }
}

/// The decimal digits that a `Status` value begins with.
pub open spec fn code_text(v: Seq<u8>) -> Seq<u8> {
    v.subrange(0, digit_prefix_len(v) as int)
}

/// A status code can be read from `t`: one or more digits, whose number fits in 16 bits.
pub open spec fn is_code(t: Seq<u8>) -> bool {
    &&& t.len() > 0
    &&& forall|i: int| 0 <= i < t.len() ==> is_digit(#[trigger] t[i])
    &&& decimal_of(t) <= 65535
}

/// The status code: the integer that the `Status` value begins with, or 200 when there
/// is no such value, no such integer, or one too large for 16 bits.
pub open spec fn status_code_of(status: Option<Seq<u8>>) -> u16 {
    match status {
        Some(v) => if is_code(code_text(v)) {
            decimal_of(code_text(v)) as u16
        } else {
            200
        },
        None => 200,
    }
}

proof fn lemma_digit_prefix_len(d: Seq<u8>, rest: Seq<u8>)
    requires
        forall|i: int| 0 <= i < d.len() ==> is_digit(#[trigger] d[i]),
        rest.len() == 0 || !is_digit(rest[0]),
    ensures
        digit_prefix_len(d + rest) == d.len(),
    decreases d.len(),
{
    if d.len() == 0 {
        assert(d + rest =~= rest);
    } else {
        assert((d + rest).drop_first() =~= d.drop_first() + rest);
        lemma_digit_prefix_len(d.drop_first(), rest);
    }
}

/// A `Status` value that begins with the decimal integer `d`, followed by anything
/// that is not a digit, gives the status code `d` when it fits in 16 bits.
pub proof fn lemma_status_code_is_integer_prefix(d: Seq<u8>, rest: Seq<u8>)
    requires
        d.len() > 0,
        forall|i: int| 0 <= i < d.len() ==> is_digit(#[trigger] d[i]),
        decimal_of(d) <= 65535,
        rest.len() == 0 || !is_digit(rest[0]),
    ensures
        status_code_of(Some(d + rest)) == decimal_of(d),
{
    lemma_digit_prefix_len(d, rest);
    assert(code_text(d + rest) =~= d);
}

/// A `Status` value that does not begin with a digit, and an absent one, give 200.
pub proof fn lemma_status_code_default(v: Option<Seq<u8>>)
    requires
        v matches Some(s) ==> s.len() == 0 || !is_digit(s[0]),
    ensures
        status_code_of(v) == 200,
{
}

/// The reason phrase: `NotFound` exactly when the `Status` value goes on, after its
/// first space, with the text `Not Found` and nothing more.
pub open spec fn reason_of(status: Option<Seq<u8>>) -> Reason {
    match status {
        Some(v) => {
            let p = prefix_len(v, 32);
            if p < v.len() && v.subrange(p + 1 as int, v.len() as int) == not_found_text() {
                Reason::NotFound
            } else {
                Reason::Okay
            }
        },
        None => Reason::Okay,
    }
}

/// The media subtype taken from the backend's `Content-Type`: what follows its last
/// `/`, and nothing when the backend sent no such field.
pub open spec fn subtype_of(content_type: Option<Seq<u8>>) -> Seq<u8> {
    match content_type {
        Some(v) => v.subrange(v.len() - suffix_len(v, 47), v.len() as int),
        None => seq![],
    }
}

pub open spec fn bytes_view(o: Option<&Vec<u8>>) -> Option<Seq<u8>> {
    match o {
        Some(v) => Some(v@),
        None => None,
    }
}

/// The reason phrase that goes with a reply.
#[derive(PartialEq, Eq, Structural, Clone, Copy, Debug)]
pub enum Reason {
    Okay,
    NotFound,
}

/// One `Key: Value` line of the backend's header block.
pub struct HeaderField {
    pub name: Vec<u8>,
    pub value: Vec<u8>,
}

impl View for HeaderField {
    type V = (Seq<u8>, Seq<u8>);

    open spec fn view(&self) -> (Seq<u8>, Seq<u8>) {
        (self.name@, self.value@)
    }
}

pub open spec fn fields_view(fields: Seq<HeaderField>) -> Seq<(Seq<u8>, Seq<u8>)> {
    fields.map_values(|f: HeaderField| f@)
}

/// What the bridge answers with, read from the backend's output.
pub struct BackendReply {
    pub status: u16,
    pub reason: Reason,
    pub content_subtype: Vec<u8>,
    pub body: Vec<u8>,
}

/// The index of the first `b` in `s` at or after `from`, or the length of `s`.
fn find_byte(s: &Vec<u8>, from: usize, b: u8) -> (r: usize)
    requires
        from <= s@.len(),
    ensures
        r == from + prefix_len(s@.subrange(from as int, s@.len() as int), b),
        r <= s@.len(),
{
    let mut i = from;
    while i < s.len() && s[i] != b
        invariant
            from <= i <= s@.len(),
            from + prefix_len(s@.subrange(from as int, s@.len() as int), b) == i + prefix_len(
                s@.subrange(i as int, s@.len() as int),
                b,
            ),
        decreases s@.len() - i,
    {
        assert(s@.subrange(i as int, s@.len() as int).drop_first() =~= s@.subrange(
            i as int + 1,
            s@.len() as int,
        ));
        i = i + 1;
    }
    i
}

/// The bytes `s[from..to]`.
fn copy_range(s: &Vec<u8>, from: usize, to: usize) -> (r: Vec<u8>)
    requires
        from <= to <= s@.len(),
    ensures
        r@ == s@.subrange(from as int, to as int),
{
    let mut r: Vec<u8> = Vec::new();
    let mut i = from;
    while i < to
        invariant
            from <= i <= to <= s@.len(),
            r@ == s@.subrange(from as int, i as int),
        decreases to - i,
    {
        r.push(s[i]);
        i = i + 1;
        assert(r@ =~= s@.subrange(from as int, i as int));
    }
    r
}

/// Whether `s[from..to]` is the text `t`.
fn range_equals(s: &Vec<u8>, from: usize, to: usize, t: &Vec<u8>) -> (r: bool)
    requires
        from <= to <= s@.len(),
    ensures
        r == (s@.subrange(from as int, to as int) == t@),
{
    if to - from != t.len() {
        return false;
    }
    let mut i: usize = 0;
    while i < t.len()
        invariant
            from + t@.len() == to <= s@.len(),
            0 <= i <= t@.len(),
            forall|j: int| 0 <= j < i ==> s@[from + j] == t@[j],
        decreases t@.len() - i,
    {
        if s[from + i] != t[i] {
            return false;
        }
        i = i + 1;
    }
    assert(s@.subrange(from as int, to as int) =~= t@);
    true
}

/// Reads one header line, `line[from..to]` without its line feed.
fn parse_field(line: &Vec<u8>) -> (r: Option<HeaderField>)
    ensures
        match r {
            Some(f) => field_of(line@) == Some(f@),
            None => field_of(line@) is None,
        },
{
    let i = find_byte(line, 0, 58);
    assert(line@.subrange(0, line@.len() as int) =~= line@);
    if i < line.len() {
        let name = copy_range(line, 0, i);
        let start = if i + 1 < line.len() && line[i + 1] == 32 {
            i + 2
        } else {
            i + 1
        };
        let value = copy_range(line, start, line.len());
        proof {
            let rest = line@.subrange(i + 1, line@.len() as int);
            if rest.len() > 0 && rest[0] == 32 {
                assert(rest.drop_first() =~= value@);
            } else {
                assert(rest =~= value@);
            }
        }
        Some(HeaderField { name, value })
    } else {
        None
    }
}

/// Reads the header block at the start of the backend's output: each line up to the
/// first blank one that holds a colon becomes a field, in order. Also returns where
/// the body begins.
pub fn parse_header_block(out: &Vec<u8>) -> (r: (Vec<HeaderField>, usize))
    ensures
        fields_view(r.0@) == header_fields_from(out@, 0),
        r.1 == body_start_from(out@, 0),
{
    let mut fields: Vec<HeaderField> = Vec::new();
    let mut pos: usize = 0;
    loop
        invariant
            pos <= out@.len(),
            header_fields_from(out@, 0) == fields_view(fields@) + header_fields_from(out@, pos as nat),
            body_start_from(out@, 0) == body_start_from(out@, pos as nat),
        decreases out@.len() - pos,
    {
        if pos >= out.len() {
            assert(fields_view(fields@) + seq![] =~= fields_view(fields@));
            return (fields, out.len());
        }
        let end = find_byte(out, pos, 10);
        let line_end = if end > pos && out[end - 1] == 13 {
            end - 1
        } else {
            end
        };
        let line = copy_range(out, pos, line_end);
        proof {
            let raw = out@.subrange(pos as int, end as int);
            if raw.len() > 0 && raw.last() == carriage_return() {
                assert(raw.drop_last() =~= line@);
            } else {
                assert(raw =~= line@);
            }
            assert(line_text(raw) == line@);
        }
        if line.len() == 0 {
            assert(fields_view(fields@) + seq![] =~= fields_view(fields@));
            if end < out.len() {
                return (fields, end + 1);
            } else {
                return (fields, out.len());
            }
        }
        let f = parse_field(&line);
        match f {
            Some(f) => {
                let ghost before = fields@;
                fields.push(f);
                assert(fields_view(fields@) =~= fields_view(before).push(f@));
                assert(fields_view(before) + (seq![f@] + header_fields_from(out@, (end + 1) as nat))
                    =~= fields_view(fields@) + header_fields_from(out@, (end + 1) as nat));
            },
            None => {},
        }
        if end >= out.len() {
            assert(fields_view(fields@) + seq![] =~= fields_view(fields@));
            return (fields, out.len());
        }
        pos = end + 1;
    }
}

/// The value of the first field named `name`, if any.
fn find_field<'a>(fields: &'a Vec<HeaderField>, name: &Vec<u8>) -> (r: Option<&'a Vec<u8>>)
    ensures
        match r {
            Some(v) => first_value(fields_view(fields@), name@) == Some(v@),
            None => first_value(fields_view(fields@), name@) is None,
        },
{
    let mut i: usize = 0;
    assert(fields@.subrange(0, fields@.len() as int) =~= fields@);
    while i < fields.len()
        invariant
            0 <= i <= fields@.len(),
            first_value(fields_view(fields@), name@) == first_value(
                fields_view(fields@.subrange(i as int, fields@.len() as int)),
                name@,
            ),
        decreases fields@.len() - i,
    {
        let ghost tail = fields_view(fields@.subrange(i as int, fields@.len() as int));
        assert(tail[0] == fields[i as int]@);
        let n = fields[i].name.len();
        if range_equals(&fields[i].name, 0, n, name) {
            assert(fields[i as int].name@.subrange(0, n as int) =~= fields[i as int].name@);
            return Some(&fields[i].value);
        }
        assert(fields[i as int].name@.subrange(0, n as int) =~= fields[i as int].name@);
        assert(tail.drop_first() =~= fields_view(
            fields@.subrange(i as int + 1, fields@.len() as int),
        ));
        i = i + 1;
    }
    assert(fields_view(fields@.subrange(i as int, fields@.len() as int)) =~= seq![]);
    None
}

proof fn lemma_decimal_push(s: Seq<u8>, d: u8)
    ensures
        decimal_of(s.push(d)) == decimal_of(s) * 10 + (d - 48) as nat,
{
    assert(s.push(d).drop_last() =~= s);
}

/// Reads the status code and reason phrase from the `Status` value, when there is one.
pub fn status_of(status: Option<&Vec<u8>>) -> (r: (u16, Reason))
    ensures
        r.0 == status_code_of(bytes_view(status)),
        r.1 == reason_of(bytes_view(status)),
{
    match status {
        None => (200, Reason::Okay),
        Some(v) => {
            let ghost t = code_text(v@);
            let mut code: u32 = 0;
            let mut fits = true;
            let mut i: usize = 0;
            assert(v@.subrange(0, v@.len() as int) =~= v@);
            while i < v.len() && v[i] >= 48 && v[i] <= 57
                invariant
                    0 <= i <= v@.len(),
                    digit_prefix_len(v@) == i + digit_prefix_len(v@.subrange(i as int, v@.len() as int)),
                    forall|j: int| 0 <= j < i ==> is_digit(#[trigger] v@[j]),
                    fits ==> code == decimal_of(v@.subrange(0, i as int)),
                    !fits ==> decimal_of(v@.subrange(0, i as int)) > 65535,
                    code <= 65535,
                decreases v@.len() - i,
            {
                let b = v[i];
                proof {
                    assert(v@.subrange(i as int, v@.len() as int).drop_first() =~= v@.subrange(
                        i as int + 1,
                        v@.len() as int,
                    ));
                    assert(v@.subrange(0, i as int + 1) =~= v@.subrange(0, i as int).push(b));
                    lemma_decimal_push(v@.subrange(0, i as int), b);
                }
                if fits {
                    let next = code * 10 + (b - 48) as u32;
                    if next > 65535 {
                        fits = false;
                    } else {
                        code = next;
                    }
                } else {
                    assert(decimal_of(v@.subrange(0, i as int)) * 10 >= decimal_of(
                        v@.subrange(0, i as int),
                    )) by (nonlinear_arith);
                }
                i = i + 1;
            }
            proof {
                assert(digit_prefix_len(v@.subrange(i as int, v@.len() as int)) == 0);
                assert(t =~= v@.subrange(0, i as int));
            }
            let code_value: u16 = if i > 0 && fits {
                code as u16
            } else {
                200
            };
            let p = find_byte(v, 0, 32);
            assert(v@.subrange(0, v@.len() as int) =~= v@);
            let not_found: Vec<u8> = vec![78u8, 111, 116, 32, 70, 111, 117, 110, 100];
            assert(not_found@ =~= not_found_text());
            let reason = if p < v.len() && range_equals(v, p + 1, v.len(), &not_found) {
                Reason::NotFound
            } else {
                Reason::Okay
            };
            (code_value, reason)
        },
    }
}

/// The bytes after the last `/` of a `Content-Type` value; nothing when there is none.
pub fn subtype(content_type: Option<&Vec<u8>>) -> (r: Vec<u8>)
    ensures
        r@ == subtype_of(bytes_view(content_type)),
{
    match content_type {
        None => Vec::new(),
        Some(v) => {
            let mut i = v.len();
            assert(v@.subrange(0, v@.len() as int) =~= v@);
            while i > 0 && v[i - 1] != 47
                invariant
                    i <= v@.len(),
                    suffix_len(v@, 47) == (v@.len() - i) + suffix_len(v@.subrange(0, i as int), 47),
                decreases i,
            {
                assert(v@.subrange(0, i as int).drop_last() =~= v@.subrange(0, i as int - 1));
                i = i - 1;
            }
            assert(v@.subrange(0, v@.len() as int) =~= v@);
            copy_range(v, i, v.len())
        },
    }
}

/// Reads the backend's whole output: the header block, the status and reason taken
/// from its `Status` field, the media subtype from its `Content-Type` field, and the
/// bytes after the blank line, untouched, as the body.
pub fn parse_backend_output(out: &Vec<u8>) -> (r: BackendReply)
    ensures
        r.status == status_code_of(first_value(header_fields_from(out@, 0), status_name())),
        r.reason == reason_of(first_value(header_fields_from(out@, 0), status_name())),
        r.content_subtype@ == subtype_of(
            first_value(header_fields_from(out@, 0), content_type_name()),
        ),
        r.body@ == out@.subrange(body_start_from(out@, 0) as int, out@.len() as int),
{
    let (fields, start) = parse_header_block(out);
    let status_key: Vec<u8> = vec![83u8, 116, 97, 116, 117, 115];
    assert(status_key@ =~= status_name());
    let type_key: Vec<u8> = vec![67u8, 111, 110, 116, 101, 110, 116, 45, 84, 121, 112, 101];
    assert(type_key@ =~= content_type_name());
    let (status, reason) = status_of(find_field(&fields, &status_key));
    let content_subtype = subtype(find_field(&fields, &type_key));
    proof {
        lemma_body_start_bound(out@, 0);
    }
    let body = copy_range(out, start, out.len());
    BackendReply { status, reason, content_subtype, body }
}

proof fn lemma_body_start_bound(out: Seq<u8>, pos: nat)
    ensures
        body_start_from(out, pos) <= out.len(),
    decreases out.len() - pos,
{
    if pos < out.len() {
        let end = pos + prefix_len(out.subrange(pos as int, out.len() as int), newline());
        if end < out.len() {
            lemma_body_start_bound(out, end + 1);
        }
    }
}

impl BackendReply {
    /// The media type sent on to the client: the backend's subtype under `application/`.
    pub fn content_type(&self) -> (r: Vec<u8>)
        ensures
            r@ == application_prefix() + self.content_subtype@,
    {
        let mut r: Vec<u8> = vec![97u8, 112, 112, 108, 105, 99, 97, 116, 105, 111, 110, 47];
        let ghost prefix = r@;
        assert(prefix =~= application_prefix());
        let mut i: usize = 0;
        while i < self.content_subtype.len()
            invariant
                0 <= i <= self.content_subtype@.len(),
                r@ == prefix + self.content_subtype@.subrange(0, i as int),
            decreases self.content_subtype@.len() - i,
        {
            r.push(self.content_subtype[i]);
            i = i + 1;
            assert(r@ =~= prefix + self.content_subtype@.subrange(0, i as int));
        }
        assert(self.content_subtype@.subrange(0, i as int) =~= self.content_subtype@);
        r
    }
}

/// The request path as the backend expects it: beginning with `/`.
pub open spec fn path_info_of(path: Seq<char>) -> Seq<char> {
    if path.len() > 0 && path[0] == '/' {
        path
    } else {
        "/"@ + path
    }
}

pub open spec fn is_ascii_lower(c: char) -> bool {
    'a' <= c <= 'z'
}

/// `upper` is `s` with its ASCII lower-case letters made upper-case.
pub open spec fn is_ascii_upper_of(upper: Seq<char>, s: Seq<char>) -> bool {
    &&& upper.len() == s.len()
    &&& forall|i: int|
        0 <= i < s.len() ==> if is_ascii_lower(#[trigger] s[i]) {
            upper[i] as u32 == s[i] as u32 - 32
        } else {
            upper[i] == s[i]
        }
}

/// Relies on `str::to_ascii_uppercase`: each ASCII lower-case letter becomes its
/// upper-case form, every other character stays.
#[verifier::external_body]
fn ascii_uppercase(s: &str) -> (r: String)
    ensures
        is_ascii_upper_of(r@, s@),
{
    s.to_ascii_uppercase()
}

/// The request path, beginning with `/`.
pub fn path_info(path: &str) -> (r: String)
    ensures
        r@ == path_info_of(path@),
{
    if path.unicode_len() > 0 && path.get_char(0) == '/' {
        String::from_str(path)
    } else {
        let mut r = String::from_str("/");
        r.append(path);
        r
    }
}

/// What the bridge knows of one request.
pub struct GitRequest {
    pub method: String,
    pub path: String,
    pub query: String,
    pub content_type: String,
    pub remote_addr: String,
}

/// The environment of the backend process for `req`, on the mirror at `project_root`:
/// the method in upper case, the project root, the path beginning with `/`, an empty
/// remote user, the remote address, the raw query and the content type.
pub fn cgi_environment(req: &GitRequest, project_root: &str) -> (r: Vec<(String, String)>)
    ensures
        r@.len() == 7,
        r@[0].0@ == "REQUEST_METHOD"@ && is_ascii_upper_of(r@[0].1@, req.method@),
        r@[1].0@ == "GIT_PROJECT_ROOT"@ && r@[1].1@ == project_root@,
        r@[2].0@ == "PATH_INFO"@ && r@[2].1@ == path_info_of(req.path@),
        r@[3].0@ == "REMOTE_USER"@ && r@[3].1@ == Seq::<char>::empty(),
        r@[4].0@ == "REMOTE_ADDR"@ && r@[4].1@ == req.remote_addr@,
        r@[5].0@ == "QUERY_STRING"@ && r@[5].1@ == req.query@,
        r@[6].0@ == "CONTENT_TYPE"@ && r@[6].1@ == req.content_type@,
{
    let mut r: Vec<(String, String)> = Vec::new();
    r.push((String::from_str("REQUEST_METHOD"), ascii_uppercase(req.method.as_str())));
    r.push((String::from_str("GIT_PROJECT_ROOT"), String::from_str(project_root)));
    r.push((String::from_str("PATH_INFO"), path_info(req.path.as_str())));
    r.push((String::from_str("REMOTE_USER"), String::new()));
    r.push((String::from_str("REMOTE_ADDR"), req.remote_addr.clone()));
    r.push((String::from_str("QUERY_STRING"), req.query.clone()));
    r.push((String::from_str("CONTENT_TYPE"), req.content_type.clone()));
    r
}

/// The content type passed on to the backend: `application/{sub}` for a request
/// whose media type is under `application`, and nothing for any other.
pub fn forwarded_content_type(top: &str, sub: &str) -> (r: String)
    ensures
        r@ == if top@ == "application"@ {
            "application/"@ + sub@
        } else {
            Seq::<char>::empty()
        },
{
    let t = String::from_str(top);
    let application = String::from_str("application");
    if t == application {
        let mut r = String::from_str("application/");
        r.append(sub);
        r
    } else {
        String::new()
    }
}

} // verus!
