//! The content-type classifier: decides whether a declared media type is
//! XML-shaped, that is, whether the request body should be decoded as XML.
//!
//! A media type is read as `type "/" subtype [";" parameters]`, where the
//! subtype token's last `+`, when it follows at least one byte, splits it
//! into a subtype name and a structured-syntax suffix (in
//! `application/cloudevents+xml` the name is `cloudevents`, the suffix
//! `xml`). It is XML-shaped when it parses under that grammar, its type is
//! `application` or `text`, and its subtype name or its suffix is `xml`,
//! compared without regard to ASCII case: `application/xml+der` counts as
//! XML-shaped just as `application/cloudevents+xml` does. A string that
//! does not parse -- a parameter without `=`, an empty parameter name, an
//! unterminated quoted value, a byte outside printable ASCII -- is not
//! XML-shaped, whatever stands before its first `;`.

use vstd::prelude::*;

verus! {

/// A byte that may appear in a media-type token (a `tchar`): an ASCII
/// letter, a digit, or one of the permitted punctuation marks.
pub open spec fn is_tchar(b: u8) -> bool {
    ||| 97 <= b <= 122  // 'a' ..= 'z'
    ||| 65 <= b <= 90  // 'A' ..= 'Z'
    ||| 48 <= b <= 57  // '0' ..= '9'
    ||| b == 33  // '!'
    ||| b == 35  // '#'
    ||| b == 36  // '$'
    ||| b == 37  // '%'
    ||| b == 38  // '&'
    ||| b == 39  // apostrophe
    ||| b == 42  // '*'
    ||| b == 43  // '+'
    ||| b == 45  // '-'
    ||| b == 46  // '.'
    ||| b == 94  // '^'
    ||| b == 95  // '_'
    ||| b == 96  // backquote
    ||| b == 124  // '|'
    ||| b == 126  // '~'
}

/// ASCII lowercase folding of one byte.
pub open spec fn ascii_lower(b: u8) -> u8 {
    if 65 <= b <= 90 {  // 'A' ..= 'Z'
        (b + 32) as u8
    } else {
        b
    }
}

/// Equality of two byte strings up to ASCII case.
pub open spec fn eq_ascii_ci(a: Seq<u8>, b: Seq<u8>) -> bool {
    a.len() == b.len() && (forall|i: int| 0 <= i < a.len() ==> ascii_lower(a[i]) == ascii_lower(b[i]))
}

/// Index of the first occurrence of `b` in `s` at or after position `i`,
/// or `s.len()` when there is none.
pub open spec fn first_index_from(s: Seq<u8>, b: u8, i: int) -> int
    decreases s.len() - i,
{
    if i < 0 || i >= s.len() {
        s.len() as int
    } else if s[i] == b {
        i
    } else {
        first_index_from(s, b, i + 1)
    }
}

/// The largest index k < i with s[k] == b, or -1 when there is none.
pub open spec fn last_index_before(s: Seq<u8>, b: u8, i: int) -> int
    decreases i,
{
    if i <= 0 {
        -1
    } else if s[i - 1] == b {
        i - 1
    } else {
        last_index_before(s, b, i - 1)
    }
}

/// The media type without its parameters: everything before the first `;`.
pub open spec fn spec_essence(s: Seq<u8>) -> Seq<u8> {
    s.take(first_index_from(s, 59, 0))  // 59 is ';'
}

/// The type component: the essence up to its first `/`.
pub open spec fn spec_type_component(s: Seq<u8>) -> Seq<u8> {
    spec_essence(s).take(first_index_from(spec_essence(s), 47, 0))  // 47 is '/'
}

/// The subtype component: the essence after its first `/` (empty when the
/// essence has no `/`).
pub open spec fn spec_subtype_component(s: Seq<u8>) -> Seq<u8> {
    let e = spec_essence(s);
    let k = first_index_from(e, 47, 0);  // 47 is '/'
    if k < e.len() {
        e.skip(k + 1)
    } else {
        Seq::empty()
    }
}

/// A nonempty byte string made of token bytes only.
pub open spec fn is_token(s: Seq<u8>) -> bool {
    s.len() > 0 && (forall|i: int| 0 <= i < s.len() ==> is_tchar(s[i]))
}

/// Where the parameter scanner stands between two bytes.
#[derive(Clone, Copy, Debug)]
pub enum ParamState {
    /// Just after a `;` or a skipped leading space: a space, a parameter
    /// name, or the end of the string may follow.
    ParamStart,
    /// Inside a parameter name: more name bytes or the `=` may follow.
    InName,
    /// Just after the `=`: a quote opens a quoted value, a token byte
    /// starts a plain one, and the string may also simply end.
    ValueStart,
    /// Inside a plain value: more token bytes, a `;`, or the end.
    UnquotedValue,
    /// Just after the opening quote: the first content byte must follow
    /// (a quote here is content, not the closing quote).
    QuoteOpened,
    /// Inside a quoted value: content bytes until the closing quote.
    QuotedValue,
    /// After the closing quote: spaces, then a `;` or the end.
    AfterQuote,
}

/// One byte of quoted-value content: printable ASCII. (A header value
/// admits no other byte there: control bytes, DEL and bytes beyond ASCII
/// never parse.)
pub open spec fn is_quoted_content(b: u8) -> bool {
    32 <= b <= 126
}

/// Whether the parameter section of a media type, read byte by byte from
/// position `i` in state `st`, reaches the end of the string in a state
/// that may end one: `parameter = name "=" ( value / DQUOTE content DQUOTE )`,
/// each introduced by a `;` and optional spaces, with a bare trailing `;`
/// allowed and a plain value allowed to be empty only at the very end.
pub open spec fn spec_params_accept(s: Seq<u8>, i: int, st: ParamState) -> bool
    decreases s.len() - i,
{
    if i < 0 || i >= s.len() {
        match st {
            ParamState::ParamStart => true,
            ParamState::ValueStart => true,
            ParamState::UnquotedValue => true,
            ParamState::AfterQuote => true,
            _ => false,
        }
    } else {
        let b = s[i];
        match st {
            ParamState::ParamStart => if b == 32 {  // ' '
                spec_params_accept(s, i + 1, ParamState::ParamStart)
            } else if is_tchar(b) {
                spec_params_accept(s, i + 1, ParamState::InName)
            } else {
                false
            },
            ParamState::InName => if b == 61 {  // '='
                spec_params_accept(s, i + 1, ParamState::ValueStart)
            } else if is_tchar(b) {
                spec_params_accept(s, i + 1, ParamState::InName)
            } else {
                false
            },
            ParamState::ValueStart => if b == 34 {  // '"'
                spec_params_accept(s, i + 1, ParamState::QuoteOpened)
            } else if is_tchar(b) {
                spec_params_accept(s, i + 1, ParamState::UnquotedValue)
            } else {
                false
            },
            ParamState::UnquotedValue => if b == 59 {  // ';'
                spec_params_accept(s, i + 1, ParamState::ParamStart)
            } else if is_tchar(b) {
                spec_params_accept(s, i + 1, ParamState::UnquotedValue)
            } else {
                false
            },
            ParamState::QuoteOpened => if is_quoted_content(b) {
                spec_params_accept(s, i + 1, ParamState::QuotedValue)
            } else {
                false
            },
            ParamState::QuotedValue => if b == 34 {  // '"'
                spec_params_accept(s, i + 1, ParamState::AfterQuote)
            } else if is_quoted_content(b) {
                spec_params_accept(s, i + 1, ParamState::QuotedValue)
            } else {
                false
            },
            ParamState::AfterQuote => if b == 32 {  // ' '
                spec_params_accept(s, i + 1, ParamState::AfterQuote)
            } else if b == 59 {  // ';'
                spec_params_accept(s, i + 1, ParamState::ParamStart)
            } else {
                false
            },
        }
    }
}

/// The parameter section parses: either the string ends with the subtype,
/// or a `;` follows it and the rest obeys the parameter grammar.
pub open spec fn spec_params_ok(s: Seq<u8>) -> bool {
    let semi = first_index_from(s, 59, 0);  // 59 is ';'
    semi == s.len() || spec_params_accept(s, semi + 1, ParamState::ParamStart)
}

/// The string parses as `type "/" subtype [";" parameters]`: the part
/// before the first `;` holds a `/` between two tokens, and what follows
/// that `;`, if anything does, obeys the parameter grammar.
pub open spec fn spec_parses_as_media_type(s: Seq<u8>) -> bool {
    let e = spec_essence(s);
    &&& first_index_from(e, 47, 0) < e.len()  // 47 is '/'
    &&& is_token(spec_type_component(s))
    &&& is_token(spec_subtype_component(s))
    &&& spec_params_ok(s)
}

/// The structured-syntax suffix of a subtype: what follows its last `+`.
/// A subtype without a `+`, or whose only `+` is its first byte (there is
/// no name for the suffix to follow), has none.
pub open spec fn spec_suffix(sub: Seq<u8>) -> Option<Seq<u8>> {
    let p = last_index_before(sub, 43, sub.len() as int);  // 43 is '+'
    if p >= 1 {
        Some(sub.skip(p + 1))
    } else {
        None
    }
}

/// The subtype without its structured-syntax suffix: what precedes the
/// last `+` when that `+` introduces a suffix, else the whole subtype.
pub open spec fn spec_subtype_name(sub: Seq<u8>) -> Seq<u8> {
    let p = last_index_before(sub, 43, sub.len() as int);  // 43 is '+'
    if p >= 1 {
        sub.take(p)
    } else {
        sub
    }
}

/// The byte string `application`.
pub open spec fn spec_application() -> Seq<u8> {
    seq![97, 112, 112, 108, 105, 99, 97, 116, 105, 111, 110]  // the letters of "application"
}

/// The byte string `text`.
pub open spec fn spec_text() -> Seq<u8> {
    seq![116, 101, 120, 116]  // the letters of "text"
}

/// The byte string `xml`.
pub open spec fn spec_xml() -> Seq<u8> {
    seq![120, 109, 108]  // the letters of "xml"
}

/// An XML-shaped media type: it parses, its type is `application` or
/// `text`, and its subtype name or its suffix is `xml` (ASCII case
/// ignored).
pub open spec fn spec_is_xml_media_type(s: Seq<u8>) -> bool {
    let ty = spec_type_component(s);
    let sub = spec_subtype_component(s);
    &&& spec_parses_as_media_type(s)
    &&& (eq_ascii_ci(ty, spec_application()) || eq_ascii_ci(ty, spec_text()))
    &&& (eq_ascii_ci(spec_subtype_name(sub), spec_xml()) || (spec_suffix(sub) matches Some(x)
        && eq_ascii_ci(x, spec_xml())))
}

fn find_byte(s: &[u8], b: u8, from: usize) -> (r: usize)
    requires
        from <= s@.len(),
    ensures
        from <= r <= s@.len(),
        r == first_index_from(s@, b, from as int),
{
    let len: usize = s.len();
    let mut i: usize = from;
    while i < len
        invariant
            from <= i <= len,
            len == s@.len(),
            first_index_from(s@, b, from as int) == first_index_from(s@, b, i as int),
        decreases len - i,
    {
        if s[i] == b {
            assert(first_index_from(s@, b, i as int) == i as int);
            return i;
        }
        assert(first_index_from(s@, b, i as int) == first_index_from(s@, b, i + 1));
        i = i + 1;
    }
    assert(first_index_from(s@, b, i as int) == s@.len());
    i
}

fn rfind_byte(s: &[u8], b: u8) -> (r: Option<usize>)
    ensures
        match r {
            Some(j) => j < s@.len() && j == last_index_before(s@, b, s@.len() as int),
            None => last_index_before(s@, b, s@.len() as int) == -1,
        },
{
    let mut i: usize = s.len();
    while i > 0
        invariant
            i <= s@.len(),
            last_index_before(s@, b, s@.len() as int) == last_index_before(s@, b, i as int),
        decreases i,
    {
        i = i - 1;
        if s[i] == b {
            assert(last_index_before(s@, b, i + 1) == i as int);
            return Some(i);
        }
        assert(last_index_before(s@, b, i + 1) == last_index_before(s@, b, i as int));
    }
    assert(last_index_before(s@, b, 0) == -1);
    None
}

fn is_tchar_exec(b: u8) -> (r: bool)
    ensures
        r == is_tchar(b),
{
    // letters, digits, then the same punctuation marks as in is_tchar
    (97 <= b && b <= 122) || (65 <= b && b <= 90) || (48 <= b && b <= 57) || b == 33
        || b == 35 || b == 36 || b == 37 || b == 38 || b == 39 || b == 42 || b == 43
        || b == 45 || b == 46 || b == 94 || b == 95 || b == 96 || b == 124 || b == 126
}

fn is_token_exec(s: &[u8]) -> (r: bool)
    ensures
        r == is_token(s@),
{
    if s.len() == 0 {
        return false;
    }
    let len: usize = s.len();
    let mut i: usize = 0;
    while i < len
        invariant
            i <= len,
            len == s@.len(),
            forall|k: int| 0 <= k < i ==> is_tchar(s@[k]),
        decreases len - i,
    {
        if !is_tchar_exec(s[i]) {
            return false;
        }
        i = i + 1;
    }
    true
}

fn ascii_lower_exec(b: u8) -> (r: u8)
    ensures
        r == ascii_lower(b),
{
    if 65 <= b && b <= 90 {  // 'A' ..= 'Z'
        b + 32
    } else {
        b
    }
}

fn eq_ascii_ci_exec(a: &[u8], b: &[u8]) -> (r: bool)
    ensures
        r == eq_ascii_ci(a@, b@),
{
    if a.len() != b.len() {
        return false;
    }
    let len: usize = a.len();
    let mut i: usize = 0;
    while i < len
        invariant
            i <= len,
            len == a@.len() == b@.len(),
            forall|k: int| 0 <= k < i ==> ascii_lower(a@[k]) == ascii_lower(b@[k]),
        decreases len - i,
    {
        if ascii_lower_exec(a[i]) != ascii_lower_exec(b[i]) {
            return false;
        }
        i = i + 1;
    }
    true
}

fn application_const() -> (r: Vec<u8>)
    ensures
        r@ == spec_application(),
{
    let v: Vec<u8> = vec![97, 112, 112, 108, 105, 99, 97, 116, 105, 111, 110];
    proof {
        assert(v@ =~= spec_application());
    }
    v
}

fn text_const() -> (r: Vec<u8>)
    ensures
        r@ == spec_text(),
{
    let v: Vec<u8> = vec![116, 101, 120, 116];
    proof {
        assert(v@ =~= spec_text());
    }
    v
}

fn xml_const() -> (r: Vec<u8>)
    ensures
        r@ == spec_xml(),
{
    let v: Vec<u8> = vec![120, 109, 108];
    proof {
        assert(v@ =~= spec_xml());
    }
    v
}

fn is_quoted_content_exec(b: u8) -> (r: bool)
    ensures
        r == is_quoted_content(b),
{
    32 <= b && b <= 126
}

fn params_accept_exec(s: &[u8], from: usize) -> (r: bool)
    requires
        from <= s@.len(),
    ensures
        r == spec_params_accept(s@, from as int, ParamState::ParamStart),
{
    let len: usize = s.len();
    let mut i: usize = from;
    let mut st = ParamState::ParamStart;
    while i < len
        invariant
            from <= i <= len,
            len == s@.len(),
            spec_params_accept(s@, from as int, ParamState::ParamStart) == spec_params_accept(
                s@,
                i as int,
                st,
            ),
        decreases len - i,
    {
        let b = s[i];
        match st {
            ParamState::ParamStart => if b == 32 {
            } else if is_tchar_exec(b) {
                st = ParamState::InName;
            } else {
                return false;
            },
            ParamState::InName => if b == 61 {
                st = ParamState::ValueStart;
            } else if is_tchar_exec(b) {
            } else {
                return false;
            },
            ParamState::ValueStart => if b == 34 {
                st = ParamState::QuoteOpened;
            } else if is_tchar_exec(b) {
                st = ParamState::UnquotedValue;
            } else {
                return false;
            },
            ParamState::UnquotedValue => if b == 59 {
                st = ParamState::ParamStart;
            } else if is_tchar_exec(b) {
            } else {
                return false;
            },
            ParamState::QuoteOpened => if is_quoted_content_exec(b) {
                st = ParamState::QuotedValue;
            } else {
                return false;
            },
            ParamState::QuotedValue => if b == 34 {
                st = ParamState::AfterQuote;
            } else if is_quoted_content_exec(b) {
            } else {
                return false;
            },
            ParamState::AfterQuote => if b == 32 {
            } else if b == 59 {
                st = ParamState::ParamStart;
            } else {
                return false;
            },
        }
        i = i + 1;
    }
    match st {
        ParamState::ParamStart => true,
        ParamState::ValueStart => true,
        ParamState::UnquotedValue => true,
        ParamState::AfterQuote => true,
        _ => false,
    }
}

/// Whether the media type `s` is XML-shaped: it parses as a media type,
/// its type is `application` or `text`, and its subtype name or
/// structured-syntax suffix is `xml`. A string that does not parse -- in
/// its components or in its parameter section -- is not XML-shaped.
pub fn is_xml_media_type(s: &[u8]) -> (r: bool)
    ensures
        r == spec_is_xml_media_type(s@),
{
    let semi = find_byte(s, 59, 0);  // 59 is ';'
    if semi < s.len() && !params_accept_exec(s, semi + 1) {
        return false;
    }
    let essence = &s[0..semi];
    assert(essence@ =~= spec_essence(s@));
    let slash = find_byte(essence, 47, 0);  // 47 is '/'
    if slash == essence.len() {
        return false;
    }
    let ty = &essence[0..slash];
    let sub = &essence[slash + 1..essence.len()];
    assert(ty@ =~= spec_type_component(s@));
    assert(sub@ =~= spec_subtype_component(s@));
    if !is_token_exec(ty) {
        return false;
    }
    if !is_token_exec(sub) {
        return false;
    }
    let app = application_const();
    let txt = text_const();
    if !(eq_ascii_ci_exec(ty, app.as_slice()) || eq_ascii_ci_exec(ty, txt.as_slice())) {
        return false;
    }
    let xml = xml_const();
    match rfind_byte(sub, 43) {  // 43 is '+'
        Some(p) => {
            if p == 0 {
                // a '+' with nothing before it introduces no suffix: the
                // whole token is the subtype name
                return eq_ascii_ci_exec(sub, xml.as_slice());
            }
            let name = &sub[0..p];
            assert(name@ =~= spec_subtype_name(sub@));
            if eq_ascii_ci_exec(name, xml.as_slice()) {
                return true;
            }
            let suffix = &sub[p + 1..sub.len()];
            assert(suffix@ =~= spec_suffix(sub@)->Some_0);
            eq_ascii_ci_exec(suffix, xml.as_slice())
        },
        None => eq_ascii_ci_exec(sub, xml.as_slice()),
    }
}

} // verus!
