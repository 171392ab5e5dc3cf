use vstd::prelude::*;
use vstd::string::StrSliceExecFns;
use vstd::string::StringExecFns;

verus! {

/// Whitespace between the parts of a document.
pub open spec fn is_ws(c: char) -> bool {
    c == ' ' || c == '\t' || c == '\n' || c == '\r'
}

/// A character that may stand in an element or attribute name.
pub open spec fn is_name_char(c: char) -> bool {
    ('a' <= c && c <= 'z') || ('A' <= c && c <= 'Z') || ('0' <= c && c <= '9') || c == '_' || c
        == '-' || c == ':' || c == '.'
}

/// The first position at or after `i` that holds no whitespace.
pub open spec fn ws_end(s: Seq<char>, i: int) -> int
    decreases s.len() - i,
{
    if 0 <= i < s.len() && is_ws(s[i]) {
        ws_end(s, i + 1)
    } else {
        i
    }
}

/// The first position at or after `i` that holds no name character.
pub open spec fn name_end(s: Seq<char>, i: int) -> int
    decreases s.len() - i,
{
    if 0 <= i < s.len() && is_name_char(s[i]) {
        name_end(s, i + 1)
    } else {
        i
    }
}

/// The first position at or after `i` that holds `c`, or the length when none does.
pub open spec fn find_char(s: Seq<char>, i: int, c: char) -> int
    decreases s.len() - i,
{
    if 0 <= i < s.len() && s[i] != c {
        find_char(s, i + 1, c)
    } else if i < s.len() {
        i
    } else {
        s.len() as int
    }
}

/// The last position, going back from `hi` to no further than `lo`, after which
/// only whitespace comes up to `hi`.
pub open spec fn ws_back(s: Seq<char>, lo: int, hi: int) -> int
    decreases hi - lo,
{
    if lo < hi && 0 < hi <= s.len() && is_ws(s[hi - 1]) {
        ws_back(s, lo, hi - 1)
    } else {
        hi
    }
}

/// The text that the entity and character references of `raw` stand for, as
/// quick-xml resolves them; `None` when one of them is unknown or unterminated.
pub uninterp spec fn xml_unescaped(raw: Seq<char>) -> Option<Seq<char>>;

/// What a raw value or text stands for: itself when it holds no `&`, else what
/// its references resolve to.
pub open spec fn unescaped(raw: Seq<char>) -> Option<Seq<char>> {
    if forall|i: int| 0 <= i < raw.len() ==> raw[i] != '&' {
        Some(raw)
    } else {
        xml_unescaped(raw)
    }
}

/// The value of the first attribute called `name`.
pub open spec fn attr_lookup(attrs: Seq<(Seq<char>, Seq<char>)>, name: Seq<char>) -> Option<
    Seq<char>,
>
    decreases attrs.len(),
{
    if attrs.len() == 0 {
        None
    } else if attrs[0].0 == name {
        Some(attrs[0].1)
    } else {
        attr_lookup(attrs.drop_first(), name)
    }
}

/// `lit` stands in `s` at position `i`.
pub open spec fn has_at(s: Seq<char>, i: int, lit: Seq<char>) -> bool {
    0 <= i && i + lit.len() <= s.len() && s.subrange(i, i + lit.len()) == lit
}

/// The first position at or after `i` where `lit` stands, or the length when it
/// stands nowhere after `i`.
pub open spec fn find_lit(s: Seq<char>, i: int, lit: Seq<char>) -> int
    decreases s.len() - i,
{
    if 0 <= i < s.len() && !has_at(s, i, lit) {
        find_lit(s, i + 1, lit)
    } else if i < s.len() {
        i
    } else {
        s.len() as int
    }
}

/// The first position at or after `i` past whitespace and `<!-- ... -->`
/// comments.
pub open spec fn misc_end(s: Seq<char>, i: int) -> int
    decreases s.len() - i,
{
    let j = ws_end(s, i);
    let c = find_lit(s, j + 4, "-->"@);
    if has_at(s, j, "<!--"@) && c < s.len() && i < c + 3 <= s.len() {
        misc_end(s, c + 3)
    } else {
        j
    }
}

/// An element as the document writes it: its name, its attributes in order
/// (name and value), and its text with surrounding whitespace removed, when any
/// is left.
pub struct ElementView {
    pub name: Seq<char>,
    pub attributes: Seq<(Seq<char>, Seq<char>)>,
    pub text: Option<Seq<char>>,
}

/// One attribute `name = "value"` (or with single quotes) starting at `i`, and the
/// position after it.
pub open spec fn attr_at(s: Seq<char>, i: int) -> Option<((Seq<char>, Seq<char>), int)> {
    let ne = name_end(s, i);
    let eq = ws_end(s, ne);
    let q = ws_end(s, eq + 1);
    if ne == i || !(0 <= eq < s.len() && s[eq] == '=') {
        None
    } else if !(0 <= q < s.len() && (s[q] == '"' || s[q] == '\'')) {
        None
    } else {
        let close = find_char(s, q + 1, s[q]);
        if close < s.len() {
            match unescaped(s.subrange(q + 1, close)) {
                Some(value) => Some(((s.subrange(i, ne), value), close + 1)),
                None => None,
            }
        } else {
            None
        }
    }
}

/// The attributes that follow position `pos`, and the position after them.
pub open spec fn attrs_from(s: Seq<char>, pos: int) -> Option<(Seq<(Seq<char>, Seq<char>)>, int)>
    decreases s.len() - pos,
{
    let j = ws_end(s, pos);
    if 0 <= j < s.len() && is_name_char(s[j]) {
        match attr_at(s, j) {
            None => None,
            Some((a, k)) => {
                if k <= pos || k > s.len() {
                    None
                } else {
                    match attrs_from(s, k) {
                        None => None,
                        Some((rest, e)) => if attr_lookup(rest, a.0) is Some {
                            None
                        } else {
                            Some((seq![a] + rest, e))
                        },
                    }
                }
            },
        }
    } else {
        Some((seq![], j))
    }
}

/// Text between two tags: `None` when only whitespace stands there.
pub open spec fn text_between(s: Seq<char>, lo: int, hi: int) -> Option<Seq<char>> {
    let a = ws_end(s, lo);
    let b = ws_back(s, a, hi);
    if a < b {
        Some(s.subrange(a, b))
    } else {
        None
    }
}

/// The closing tag `</name >` at `t`, and the position after it.
pub open spec fn close_tag_at(s: Seq<char>, t: int, name: Seq<char>) -> Option<int> {
    let k = ws_end(s, t + 2 + name.len());
    if has_at(s, t, "</"@) && has_at(s, t + 2, name) && 0 <= k < s.len() && s[k] == '>' {
        Some(k + 1)
    } else {
        None
    }
}

/// The element that starts at `i`, either `<name attrs/>` or
/// `<name attrs>text</name>`, and the position after it.
pub open spec fn element_at(s: Seq<char>, i: int) -> Option<(ElementView, int)> {
    let ne = name_end(s, i + 1);
    if !(0 <= i < s.len() && s[i] == '<') || ne == i + 1 {
        None
    } else {
        let name = s.subrange(i + 1, ne);
        match attrs_from(s, ne) {
            None => None,
            Some((attributes, j)) => {
                if has_at(s, j, "/>"@) {
                    Some((ElementView { name, attributes, text: None }, j + 2))
                } else if 0 <= j < s.len() && s[j] == '>' && has_at(
                    s,
                    ws_end(s, j + 1),
                    "<![CDATA["@,
                ) {
                    let start = ws_end(s, j + 1) + 9;
                    let end = find_lit(s, start, "]]>"@);
                    if end < s.len() && start <= end && end + 3 <= s.len() {
                        match close_tag_at(s, ws_end(s, end + 3), name) {
                            Some(e) => Some(
                                (
                                    ElementView {
                                        name,
                                        attributes,
                                        text: Some(s.subrange(start, end)),
                                    },
                                    e,
                                ),
                            ),
                            None => None,
                        }
                    } else {
                        None
                    }
                } else if 0 <= j < s.len() && s[j] == '>' {
                    let t = find_char(s, j + 1, '<');
                    match close_tag_at(s, t, name) {
                        Some(e) => match text_between(s, j + 1, t) {
                            None => Some((ElementView { name, attributes, text: None }, e)),
                            Some(raw) => match unescaped(raw) {
                                Some(text) => Some(
                                    (ElementView { name, attributes, text: Some(text) }, e),
                                ),
                                None => None,
                            },
                        },
                        None => None,
                    }
                } else {
                    None
                }
            },
        }
    }
}

/// The position after an optional `<?...?>` declaration that starts at `i`.
pub open spec fn after_declaration(s: Seq<char>, i: int) -> int {
    if has_at(s, i, "<?"@) {
        find_char(s, i, '>') + 1
    } else {
        i
    }
}

/// The single child element of the document's root element, where `s` is a
/// document made of an optional declaration, a root element whose content is
/// exactly one child element, and whitespace and comments between them. An
/// element's text is either plain text, trimmed and with its references
/// resolved, or one CDATA section taken as it stands; no attribute name repeats
/// within an element.
pub open spec fn document_child(s: Seq<char>) -> Option<ElementView> {
    let b = misc_end(s, after_declaration(s, misc_end(s, 0)));
    let ne = name_end(s, b + 1);
    if !(0 <= b < s.len() && s[b] == '<') || ne == b + 1 {
        None
    } else {
        let root = s.subrange(b + 1, ne);
        match attrs_from(s, ne) {
            None => None,
            Some((_, r)) => {
                if !(0 <= r < s.len() && s[r] == '>') {
                    None
                } else {
                    match element_at(s, misc_end(s, r + 1)) {
                        None => None,
                        Some((child, d)) => match close_tag_at(s, misc_end(s, d), root) {
                            Some(f) => {
                                if misc_end(s, f) == s.len() {
                                    Some(child)
                                } else {
                                    None
                                }
                            },
                            None => None,
                        },
                    }
                }
            },
        }
    }
}

/// One attribute of an element.
#[derive(Debug, Clone)]
pub struct Attribute {
    pub name: String,
    pub value: String,
}

/// An element of a response document.
#[derive(Debug, Clone)]
pub struct Element {
    pub name: String,
    pub attributes: Vec<Attribute>,
    pub text: Option<String>,
}

impl View for Element {
    type V = ElementView;

    open spec fn view(&self) -> ElementView {
        ElementView {
            name: self.name@,
            attributes: self.attributes@.map_values(|a: Attribute| (a.name@, a.value@)),
            text: crate::text::opt_view(self.text),
        }
    }
}

/// The characters of a list of attributes, name and value.
pub open spec fn attrs_view(v: Seq<Attribute>) -> Seq<(Seq<char>, Seq<char>)> {
    v.map_values(|a: Attribute| (a.name@, a.value@))
}

/// Relies on `quick_xml::escape::unescape`: it resolves the references of `raw`,
/// fails on an unknown or unterminated one, and hands back a text without `&`
/// as it is.
#[verifier::external_body]
fn unescape(raw: &str) -> (r: Option<String>)
    ensures
        crate::text::opt_view(r) == xml_unescaped(raw@),
        (forall|i: int| 0 <= i < raw@.len() ==> raw@[i] != '&') ==> crate::text::opt_view(r)
            == Some(raw@),
{
    quick_xml::escape::unescape(raw).ok().map(|t| t.into_owned())
}

fn ws_char(c: char) -> (r: bool)
    ensures
        r == is_ws(c),
{
    c == ' ' || c == '\t' || c == '\n' || c == '\r'
}

fn name_char(c: char) -> (r: bool)
    ensures
        r == is_name_char(c),
{
    ('a' <= c && c <= 'z') || ('A' <= c && c <= 'Z') || ('0' <= c && c <= '9') || c == '_' || c
        == '-' || c == ':' || c == '.'
}

fn skip_ws(s: &str, n: usize, i: usize) -> (r: usize)
    requires
        n == s@.len(),
        i <= n,
    ensures
        r == ws_end(s@, i as int),
        i <= r <= n,
{
    let mut j = i;
    while j < n && ws_char(s.get_char(j))
        invariant
            n == s@.len(),
            i <= j <= n,
            ws_end(s@, j as int) == ws_end(s@, i as int),
        decreases n - j,
    {
        j = j + 1;
    }
    j
}

fn skip_name(s: &str, n: usize, i: usize) -> (r: usize)
    requires
        n == s@.len(),
        i <= n,
    ensures
        r == name_end(s@, i as int),
        i <= r <= n,
{
    let mut j = i;
    while j < n && name_char(s.get_char(j))
        invariant
            n == s@.len(),
            i <= j <= n,
            name_end(s@, j as int) == name_end(s@, i as int),
        decreases n - j,
    {
        j = j + 1;
    }
    j
}

fn seek_char(s: &str, n: usize, i: usize, c: char) -> (r: usize)
    requires
        n == s@.len(),
        i <= n,
    ensures
        r == find_char(s@, i as int, c),
        i <= r <= n,
{
    let mut j = i;
    while j < n && s.get_char(j) != c
        invariant
            n == s@.len(),
            i <= j <= n,
            find_char(s@, j as int, c) == find_char(s@, i as int, c),
        decreases n - j,
    {
        j = j + 1;
    }
    j
}

fn back_ws(s: &str, n: usize, lo: usize, hi: usize) -> (r: usize)
    requires
        n == s@.len(),
        lo <= hi <= n,
    ensures
        r == ws_back(s@, lo as int, hi as int),
        lo <= r <= hi,
{
    let mut j = hi;
    while lo < j && ws_char(s.get_char(j - 1))
        invariant
            n == s@.len(),
            lo <= j <= hi,
            hi <= n,
            ws_back(s@, lo as int, j as int) == ws_back(s@, lo as int, hi as int),
        decreases j,
    {
        j = j - 1;
    }
    j
}

pub(crate) fn lit_at(s: &str, n: usize, i: usize, lit: &str) -> (r: bool)
    requires
        n == s@.len(),
    ensures
        r == has_at(s@, i as int, lit@),
{
    let m = lit.unicode_len();
    if i > n || m > n - i {
        return false;
    }
    let mut k: usize = 0;
    while k < m
        invariant
            n == s@.len(),
            m == lit@.len(),
            i + m <= n,
            0 <= k <= m,
            forall|x: int| 0 <= x < k ==> s@[i + x] == lit@[x],
        decreases m - k,
    {
        if s.get_char(i + k) != lit.get_char(k) {
            assert(s@.subrange(i as int, i + m)[k as int] != lit@[k as int]);
            return false;
        }
        k = k + 1;
    }
    assert(s@.subrange(i as int, i + m) =~= lit@);
    true
}

fn seek_lit(s: &str, n: usize, i: usize, lit: &str) -> (r: usize)
    requires
        n == s@.len(),
        i <= n,
    ensures
        r == find_lit(s@, i as int, lit@),
        i <= r <= n,
{
    let mut j = i;
    while j < n && !lit_at(s, n, j, lit)
        invariant
            n == s@.len(),
            i <= j <= n,
            find_lit(s@, j as int, lit@) == find_lit(s@, i as int, lit@),
        decreases n - j,
    {
        j = j + 1;
    }
    j
}

fn skip_misc(s: &str, n: usize, i: usize) -> (r: usize)
    requires
        n == s@.len(),
        i <= n,
    ensures
        r == misc_end(s@, i as int),
        r <= n,
    decreases n - i,
{
    let j = skip_ws(s, n, i);
    proof {
        reveal_strlit("<!--");
        reveal_strlit("-->");
    }
    if lit_at(s, n, j, "<!--") {
        let c = seek_lit(s, n, j + 4, "-->");
        if c < n && 3 <= n - c && i < c + 3 {
            return skip_misc(s, n, c + 3);
        }
    }
    j
}

fn attribute_at(s: &str, n: usize, i: usize) -> (r: Option<(Attribute, usize)>)
    requires
        n == s@.len(),
        i <= n,
    ensures
        match r {
            None => attr_at(s@, i as int) is None,
            Some((a, k)) => attr_at(s@, i as int) == Some(((a.name@, a.value@), k as int)),
        },
{
    let ne = skip_name(s, n, i);
    let eq = skip_ws(s, n, ne);
    if ne == i || !(eq < n && s.get_char(eq) == '=') {
        return None;
    }
    let q = skip_ws(s, n, eq + 1);
    if !(q < n && (s.get_char(q) == '"' || s.get_char(q) == '\'')) {
        return None;
    }
    let quote = s.get_char(q);
    let close = seek_char(s, n, q + 1, quote);
    if close < n {
        let name = String::from_str(s.substring_char(i, ne));
        match unescape(s.substring_char(q + 1, close)) {
            Some(value) => Some((Attribute { name, value }, close + 1)),
            None => None,
        }
    } else {
        None
    }
}

fn attributes_from(s: &str, n: usize, pos: usize) -> (r: Option<(Vec<Attribute>, usize)>)
    requires
        n == s@.len(),
        pos <= n,
    ensures
        match r {
            None => attrs_from(s@, pos as int) is None,
            Some((v, e)) => attrs_from(s@, pos as int) == Some((attrs_view(v@), e as int)) && e
                <= n,
        },
    decreases n - pos,
{
    let j = skip_ws(s, n, pos);
    if j < n && name_char(s.get_char(j)) {
        match attribute_at(s, n, j) {
            None => None,
            Some((a, k)) => {
                if k <= pos || k > n {
                    None
                } else {
                    match attributes_from(s, n, k) {
                        None => None,
                        Some((rest, e)) => {
                            match crate::decode::lookup(&rest, a.name.as_str()) {
                                Some(_) => return None,
                                None => {},
                            }
                            let mut v = vec![a];
                            let ghost first = v@;
                            let mut rest = rest;
                            let ghost rv = rest@;
                            v.append(&mut rest);
                            proof {
                                assert(v@ == first + rv);
                                assert(attrs_view(v@) =~= seq![(a.name@, a.value@)] + attrs_view(
                                    rv,
                                ));
                            }
                            Some((v, e))
                        },
                    }
                }
            },
        }
    } else {
        proof {
            assert(attrs_view(Seq::<Attribute>::empty()) =~= seq![]);
        }
        Some((Vec::new(), j))
    }
}

fn close_tag(s: &str, n: usize, t: usize, name: &str) -> (r: Option<usize>)
    requires
        n == s@.len(),
        t <= n,
    ensures
        match r {
            None => close_tag_at(s@, t as int, name@) is None,
            Some(e) => close_tag_at(s@, t as int, name@) == Some(e as int) && e <= n,
        },
{
    if !lit_at(s, n, t, "</") {
        return None;
    }
    proof {
        reveal_strlit("</");
    }
    if !lit_at(s, n, t + 2, name) {
        return None;
    }
    let k = skip_ws(s, n, t + 2 + name.unicode_len());
    if k < n && s.get_char(k) == '>' {
        Some(k + 1)
    } else {
        None
    }
}

fn element_from(s: &str, n: usize, i: usize) -> (r: Option<(Element, usize)>)
    requires
        n == s@.len(),
        i <= n,
    ensures
        match r {
            None => element_at(s@, i as int) is None,
            Some((el, e)) => element_at(s@, i as int) == Some((el@, e as int)) && e <= n,
        },
{
    if !(i < n && s.get_char(i) == '<') {
        return None;
    }
    let ne = skip_name(s, n, i + 1);
    if ne == i + 1 {
        return None;
    }
    let name_str = s.substring_char(i + 1, ne);
    let name = String::from_str(name_str);
    match attributes_from(s, n, ne) {
        None => None,
        Some((attributes, j)) => {
            proof {
                reveal_strlit("/>");
            }
            if lit_at(s, n, j, "/>") {
                Some((Element { name, attributes, text: None }, j + 2))
            } else if j < n && s.get_char(j) == '>' && lit_at(
                s,
                n,
                skip_ws(s, n, j + 1),
                "<![CDATA[",
            ) {
                proof {
                    reveal_strlit("<![CDATA[");
                    reveal_strlit("]]>");
                }
                let start = skip_ws(s, n, j + 1) + 9;
                let end = seek_lit(s, n, start, "]]>");
                if end < n && 3 <= n - end {
                    match close_tag(s, n, skip_ws(s, n, end + 3), name_str) {
                        Some(e) => {
                            let text = String::from_str(s.substring_char(start, end));
                            Some((Element { name, attributes, text: Some(text) }, e))
                        },
                        None => None,
                    }
                } else {
                    None
                }
            } else if j < n && s.get_char(j) == '>' {
                let t = seek_char(s, n, j + 1, '<');
                match close_tag(s, n, t, name_str) {
                    Some(e) => {
                        let a = skip_ws(s, n, j + 1);
                        let text = if a < t {
                            let b = back_ws(s, n, a, t);
                            if a < b {
                                match unescape(s.substring_char(a, b)) {
                                    Some(t) => Some(t),
                                    None => return None,
                                }
                            } else {
                                None
                            }
                        } else {
                            proof {
                                assert(ws_back(s@, a as int, t as int) == t);
                            }
                            None
                        };
                        Some((Element { name, attributes, text }, e))
                    },
                    None => None,
                }
            } else {
                None
            }
        },
    }
}

/// The single child element of the root of the document `xml`; `None` when `xml`
/// is not an optional declaration, a root element holding one child element,
/// and whitespace and comments (see `document_child`).
pub fn document_element(xml: &str) -> (r: Option<Element>)
    ensures
        match r {
            None => document_child(xml@) is None,
            Some(el) => document_child(xml@) == Some(el@),
        },
{
    let n = xml.unicode_len();
    let a = skip_misc(xml, n, 0);
    proof {
        reveal_strlit("<?");
    }
    let d = if lit_at(xml, n, a, "<?") {
        let g = seek_char(xml, n, a, '>');
        if g >= n {
            return None;
        }
        g + 1
    } else {
        a
    };
    let b = skip_misc(xml, n, d);
    if !(b < n && xml.get_char(b) == '<') {
        return None;
    }
    let ne = skip_name(xml, n, b + 1);
    if ne == b + 1 {
        return None;
    }
    let root = xml.substring_char(b + 1, ne);
    match attributes_from(xml, n, ne) {
        None => None,
        Some((_, r)) => {
            if !(r < n && xml.get_char(r) == '>') {
                return None;
            }
            let c = skip_misc(xml, n, r + 1);
            match element_from(xml, n, c) {
                None => None,
                Some((child, d2)) => {
                    let g = skip_misc(xml, n, d2);
                    match close_tag(xml, n, g, root) {
                        Some(f) => {
                            if skip_misc(xml, n, f) == n {
                                Some(child)
                            } else {
                                None
                            }
                        },
                        None => None,
                    }
                },
            }
        },
    }
}

} // verus!
