//! `/etc/os-release`: its parsing, and the package family it names.

use vstd::prelude::*;

use crate::text::{
    chars_equal, chars_of, copy_range, find_char, find_from, lemma_find_from, opt_view,
    string_of, string_views,
};

verus! {

/// Unicode `White_Space`: the characters `char::is_whitespace` accepts.
pub open spec fn is_whitespace(c: char) -> bool {
    let u = c as u32;
    (0x09 <= u && u <= 0x0D) || u == 0x20 || u == 0x85 || u == 0xA0 || u == 0x1680 || (0x2000
        <= u && u <= 0x200A) || u == 0x2028 || u == 0x2029 || u == 0x202F || u == 0x205F || u
        == 0x3000
}

/// Whether `c` is Unicode white space.
pub fn char_is_whitespace(c: char) -> (b: bool)
    ensures
        b == is_whitespace(c),
{
    let u = c as u32;
    (0x09 <= u && u <= 0x0D) || u == 0x20 || u == 0x85 || u == 0xA0 || u == 0x1680 || (0x2000
        <= u && u <= 0x200A) || u == 0x2028 || u == 0x2029 || u == 0x202F || u == 0x205F || u
        == 0x3000
}

/// The characters stripped from the ends of keys and values.
#[derive(Debug, Clone, Copy, PartialEq, Eq, Structural)]
pub enum CharClass {
    Whitespace,
    Quote,
}

pub open spec fn in_class(k: CharClass, c: char) -> bool {
    match k {
        CharClass::Whitespace => is_whitespace(c),
        CharClass::Quote => c == '"' || c == '\'',
    }
}

fn char_in_class(k: CharClass, c: char) -> (b: bool)
    ensures
        b == in_class(k, c),
{
    match k {
        CharClass::Whitespace => char_is_whitespace(c),
        CharClass::Quote => c == '"' || c == '\'',
    }
}

/// The first index at or after `i` whose character is not in class `k`.
pub open spec fn skip_class(s: Seq<char>, k: CharClass, i: int) -> int
    decreases s.len() - i,
{
    if 0 <= i < s.len() && in_class(k, s[i]) {
        skip_class(s, k, i + 1)
    } else {
        i
    }
}

/// The end of `s[..j]` once its trailing characters of class `k` are dropped.
pub open spec fn rskip_class(s: Seq<char>, k: CharClass, j: int) -> int
    decreases j,
{
    if 0 < j <= s.len() && in_class(k, s[j - 1]) {
        rskip_class(s, k, j - 1)
    } else {
        j
    }
}

/// `s` without its leading and trailing characters of class `k`.
pub open spec fn trim_class(s: Seq<char>, k: CharClass) -> Seq<char> {
    let a = skip_class(s, k, 0);
    if a >= s.len() {
        Seq::empty()
    } else {
        s.subrange(a, rskip_class(s, k, s.len() as int))
    }
}

/// `str::trim`.
pub open spec fn trim(s: Seq<char>) -> Seq<char> {
    trim_class(s, CharClass::Whitespace)
}

/// `str::trim_matches(['"', '\''])`.
pub open spec fn strip_quotes(s: Seq<char>) -> Seq<char> {
    trim_class(s, CharClass::Quote)
}

proof fn lemma_rskip_class(s: Seq<char>, k: CharClass, j: int, a: int)
    requires
        0 <= a < j <= s.len(),
        !in_class(k, s[a]),
    ensures
        a < rskip_class(s, k, j) <= j,
    decreases j,
{
    if in_class(k, s[j - 1]) {
        lemma_rskip_class(s, k, j - 1, a);
    }
}

/// `s` without its leading and trailing characters of class `k`.
pub fn trim_vec(s: &Vec<char>, k: CharClass) -> (r: Vec<char>)
    ensures
        r@ == trim_class(s@, k),
{
    let mut a: usize = 0;
    while a < s.len() && char_in_class(k, s[a])
        invariant
            a <= s.len(),
            skip_class(s@, k, a as int) == skip_class(s@, k, 0),
        decreases s.len() - a,
    {
        a = a + 1;
    }
    if a >= s.len() {
        return Vec::new();
    }
    let mut b: usize = s.len();
    while b > 0 && char_in_class(k, s[b - 1])
        invariant
            b <= s.len(),
            rskip_class(s@, k, b as int) == rskip_class(s@, k, s@.len() as int),
        decreases b,
    {
        b = b - 1;
    }
    proof {
        lemma_rskip_class(s@, k, s@.len() as int, a as int);
    }
    copy_range(s, a, b)
}

/// The words of `s[i..]`, separated by white space, when `cur` holds the
/// characters of the word being read.
pub open spec fn words_from(s: Seq<char>, i: int, cur: Seq<char>) -> Seq<Seq<char>>
    decreases s.len() - i,
{
    if i < 0 || i >= s.len() {
        if cur.len() > 0 {
            seq![cur]
        } else {
            Seq::empty()
        }
    } else if is_whitespace(s[i]) {
        if cur.len() > 0 {
            seq![cur] + words_from(s, i + 1, Seq::empty())
        } else {
            words_from(s, i + 1, Seq::empty())
        }
    } else {
        words_from(s, i + 1, cur.push(s[i]))
    }
}

/// `str::split_whitespace`: the non-empty runs of non-white-space characters.
pub open spec fn split_whitespace(s: Seq<char>) -> Seq<Seq<char>> {
    words_from(s, 0, Seq::empty())
}

/// The words of `s`, separated by white space.
pub fn split_words(s: &Vec<char>) -> (r: Vec<String>)
    ensures
        string_views(r@) == split_whitespace(s@),
{
    let mut out: Vec<String> = Vec::new();
    let mut cur: Vec<char> = Vec::new();
    let mut i: usize = 0;
    assert(string_views(out@) =~= Seq::empty());
    while i < s.len()
        invariant
            i <= s.len(),
            string_views(out@) + words_from(s@, i as int, cur@) == split_whitespace(s@),
        decreases s.len() - i,
    {
        let c = s[i];
        if char_is_whitespace(c) {
            if cur.len() > 0 {
                let ghost before = string_views(out@);
                let w = string_of(cur.as_slice());
                out.push(w);
                assert(string_views(out@) =~= before.push(cur@));
                assert(before + (seq![cur@] + words_from(s@, i + 1, Seq::empty())) =~= before.push(
                    cur@,
                ) + words_from(s@, i + 1, Seq::empty()));
                cur = Vec::new();
            }
            assert(cur@ =~= Seq::<char>::empty());
        } else {
            cur.push(c);
        }
        i = i + 1;
    }
    if cur.len() > 0 {
        let ghost before = string_views(out@);
        let w = string_of(cur.as_slice());
        out.push(w);
        assert(string_views(out@) =~= before.push(cur@));
        assert(before + seq![cur@] =~= before.push(cur@));
    } else {
        assert(string_views(out@) + Seq::empty() =~= string_views(out@));
    }
    out
}

/// The fields of `/etc/os-release` that the server reads.
#[derive(Debug)]
pub struct OsRelease {
    pub name: Option<String>,
    pub version: Option<String>,
    pub id: Option<String>,
    pub id_like: Vec<String>,
    pub version_id: Option<String>,
    pub pretty_name: Option<String>,
}

/// [`OsRelease`] as plain values.
pub struct OsReleaseView {
    pub name: Option<Seq<char>>,
    pub version: Option<Seq<char>>,
    pub id: Option<Seq<char>>,
    pub id_like: Seq<Seq<char>>,
    pub version_id: Option<Seq<char>>,
    pub pretty_name: Option<Seq<char>>,
}

impl View for OsRelease {
    type V = OsReleaseView;

    open spec fn view(&self) -> OsReleaseView {
        OsReleaseView {
            name: opt_view(self.name),
            version: opt_view(self.version),
            id: opt_view(self.id),
            id_like: string_views(self.id_like@),
            version_id: opt_view(self.version_id),
            pretty_name: opt_view(self.pretty_name),
        }
    }
}

/// A release with none of the fields set.
pub open spec fn empty_release() -> OsReleaseView {
    OsReleaseView {
        name: None,
        version: None,
        id: None,
        id_like: Seq::empty(),
        version_id: None,
        pretty_name: None,
    }
}

/// The effect of one line on the fields read so far: a `KEY=value` line
/// sets the field of that key; any other line changes nothing.
pub open spec fn apply_line(acc: OsReleaseView, line: Seq<char>) -> OsReleaseView {
    let eq = find_from(line, '=', 0);
    if eq >= line.len() {
        acc
    } else {
        let key = trim(line.subrange(0, eq));
        let value = strip_quotes(trim(line.subrange(eq + 1, line.len() as int)));
        if key == "NAME"@ {
            OsReleaseView { name: Some(value), ..acc }
        } else if key == "VERSION"@ {
            OsReleaseView { version: Some(value), ..acc }
        } else if key == "ID"@ {
            OsReleaseView { id: Some(value), ..acc }
        } else if key == "ID_LIKE"@ {
            OsReleaseView { id_like: split_whitespace(value), ..acc }
        } else if key == "VERSION_ID"@ {
            OsReleaseView { version_id: Some(value), ..acc }
        } else if key == "PRETTY_NAME"@ {
            OsReleaseView { pretty_name: Some(value), ..acc }
        } else {
            acc
        }
    }
}

/// The line starting at index `i`, as `str::lines` yields it: up to the
/// next `\n`, without a `\r` just before that `\n`.
pub open spec fn line_at(s: Seq<char>, i: int) -> Seq<char> {
    let e = find_from(s, '\n', i);
    let raw = s.subrange(i, e);
    if e < s.len() && raw.len() > 0 && raw.last() == '\r' {
        raw.drop_last()
    } else {
        raw
    }
}

/// The fields once the lines from index `i` on are applied to `acc`.
pub open spec fn parse_from(acc: OsReleaseView, s: Seq<char>, i: int) -> OsReleaseView
    decreases s.len() + 1 - i,
{
    if i < 0 || i >= s.len() {
        acc
    } else {
        proof {
            lemma_find_from(s, '\n', i);
        }
        parse_from(apply_line(acc, line_at(s, i)), s, find_from(s, '\n', i) + 1)
    }
}

/// The fields of a whole `/etc/os-release` file: every line applied in
/// order, so the last line with a key wins.
pub open spec fn parse_os_release(s: Seq<char>) -> OsReleaseView {
    parse_from(empty_release(), s, 0)
}

/// The package family of a distribution.
#[derive(Debug, Clone, Copy, PartialEq, Eq, Structural)]
pub enum OSFamily {
    DEB,
    RPM,
    UNKNOWN,
}

/// The family an `ID` or `ID_LIKE` token names, if any.
pub open spec fn token_family(t: Seq<char>) -> Option<OSFamily> {
    if t == "debian"@ || t == "ubuntu"@ {
        Some(OSFamily::DEB)
    } else if t == "rhel"@ || t == "fedora"@ || t == "centos"@ || t == "amzn"@ || t == "rocky"@
        || t == "almalinux"@ {
        Some(OSFamily::RPM)
    } else {
        None
    }
}

/// The family named by the first token from index `i` on that names one.
pub open spec fn family_from(tokens: Seq<Seq<char>>, i: int) -> OSFamily
    decreases tokens.len() - i,
{
    if i < 0 || i >= tokens.len() {
        OSFamily::UNKNOWN
    } else {
        match token_family(tokens[i]) {
            Some(f) => f,
            None => family_from(tokens, i + 1),
        }
    }
}

/// The family of a release: its `ID` is looked at first, then each
/// `ID_LIKE` token in order.
pub open spec fn family_of(r: OsReleaseView) -> OSFamily {
    match r.id {
        Some(id) => match token_family(id) {
            Some(f) => f,
            None => family_from(r.id_like, 0),
        },
        None => family_from(r.id_like, 0),
    }
}

fn token_family_of(t: &String) -> (f: Option<OSFamily>)
    ensures
        f == token_family(t@),
{
    let c = chars_of(t.as_str());
    if chars_equal(&c, "debian") || chars_equal(&c, "ubuntu") {
        Some(OSFamily::DEB)
    } else if chars_equal(&c, "rhel") || chars_equal(&c, "fedora") || chars_equal(&c, "centos")
        || chars_equal(&c, "amzn") || chars_equal(&c, "rocky") || chars_equal(&c, "almalinux") {
        Some(OSFamily::RPM)
    } else {
        None
    }
}

fn apply_line_to(acc: &mut OsRelease, line: &Vec<char>)
    ensures
        final(acc)@ == apply_line(old(acc)@, line@),
{
    let eq = find_char(line, '=', 0);
    if eq >= line.len() {
        return ;
    }
    let key = trim_vec(&copy_range(line, 0, eq), CharClass::Whitespace);
    let trimmed = trim_vec(&copy_range(line, eq + 1, line.len()), CharClass::Whitespace);
    let value = trim_vec(&trimmed, CharClass::Quote);
    if chars_equal(&key, "NAME") {
        acc.name = Some(string_of(value.as_slice()));
    } else if chars_equal(&key, "VERSION") {
        acc.version = Some(string_of(value.as_slice()));
    } else if chars_equal(&key, "ID") {
        acc.id = Some(string_of(value.as_slice()));
    } else if chars_equal(&key, "ID_LIKE") {
        acc.id_like = split_words(&value);
    } else if chars_equal(&key, "VERSION_ID") {
        acc.version_id = Some(string_of(value.as_slice()));
    } else if chars_equal(&key, "PRETTY_NAME") {
        acc.pretty_name = Some(string_of(value.as_slice()));
    }
}

impl OsRelease {
    /// Reads the contents of an `/etc/os-release` file: each `KEY=value`
    /// line with a known key sets that field, its value trimmed and
    /// unquoted; `ID_LIKE` is split into words.  Other lines are ignored.
    pub fn parse(content: &str) -> (r: OsRelease)
        ensures
            r@ == parse_os_release(content@),
    {
        let s = chars_of(content);
        let mut r = OsRelease {
            name: None,
            version: None,
            id: None,
            id_like: Vec::new(),
            version_id: None,
            pretty_name: None,
        };
        assert(r@ =~= empty_release()) by {
            assert(string_views(r.id_like@) =~= Seq::empty());
        }
        let mut i: usize = 0;
        while i < s.len()
            invariant
                s@ == content@,
                i <= s.len(),
                parse_from(r@, s@, i as int) == parse_os_release(s@),
            decreases s.len() - i,
        {
            let e = find_char(&s, '\n', i);
            let mut line = copy_range(&s, i, e);
            if e < s.len() && line.len() > 0 && line[line.len() - 1] == '\r' {
                line.pop();
            }
            assert(line@ =~= line_at(s@, i as int));
            let ghost before = r@;
            apply_line_to(&mut r, &line);
            assert(parse_from(before, s@, i as int) == parse_from(r@, s@, e + 1));
            if e < s.len() {
                i = e + 1;
            } else {
                i = s.len();
            }
        }
        r
    }

    /// The package family of this distribution: the first of its `ID`
    /// and `ID_LIKE` tokens that names a Debian- or Red Hat-like system
    /// decides; with none, the family is unknown.
    pub fn family(&self) -> (f: OSFamily)
        ensures
            f == family_of(self@),
    {
        match &self.id {
            Some(id) => {
                let f = token_family_of(id);
                if let Some(found) = f {
                    return found;
                }
            },
            None => {},
        }
        let mut i: usize = 0;
        while i < self.id_like.len()
            invariant
                i <= self.id_like.len(),
                family_from(self@.id_like, i as int) == family_from(self@.id_like, 0),
                family_of(self@) == family_from(self@.id_like, 0),
            decreases self.id_like.len() - i,
        {
            let t = token_family_of(&self.id_like[i]);
            assert(self@.id_like[i as int] == self.id_like@[i as int]@);
            if let Some(found) = t {
                return found;
            }
            i = i + 1;
        }
        OSFamily::UNKNOWN
    }
}

} // verus!

verus! {

/// Of two lines setting the same key, the later one decides.
pub proof fn law_later_line_wins(acc: OsReleaseView, first: Seq<char>, second: Seq<char>)
    requires
        find_from(first, '=', 0) < first.len(),
        find_from(second, '=', 0) < second.len(),
        trim(first.subrange(0, find_from(first, '=', 0))) == trim(
            second.subrange(0, find_from(second, '=', 0)),
        ),
    ensures
        apply_line(apply_line(acc, first), second) == apply_line(acc, second),
{
}

} // verus!

verus! {

/// The distributions the server knows: a release whose `ID` is `debian` or
/// `ubuntu` is of the Debian family, and one whose `ID` is `rhel`,
/// `fedora`, `centos`, `amzn`, `rocky` or `almalinux` of the Red Hat
/// family, whatever its `ID_LIKE`; a release without `ID` takes the family
/// of the first of its `ID_LIKE` words that names one, and a release that
/// names none is of no known family.
pub proof fn law_known_distributions(r: OsReleaseView)
    ensures
        r.id == Some("debian"@) || r.id == Some("ubuntu"@) ==> family_of(r) == OSFamily::DEB,
        r.id == Some("rhel"@) || r.id == Some("fedora"@) || r.id == Some("centos"@) || r.id
            == Some("amzn"@) || r.id == Some("rocky"@) || r.id == Some("almalinux"@) ==> family_of(r)
            == OSFamily::RPM,
        r.id is None && r.id_like.len() > 0 && (r.id_like[0] == "debian"@ || r.id_like[0]
            == "ubuntu"@) ==> family_of(r) == OSFamily::DEB,
        r.id is None && r.id_like.len() > 0 && (r.id_like[0] == "rhel"@ || r.id_like[0]
            == "fedora"@ || r.id_like[0] == "centos"@ || r.id_like[0] == "amzn"@ || r.id_like[0]
            == "rocky"@ || r.id_like[0] == "almalinux"@) ==> family_of(r) == OSFamily::RPM,
        r.id is None && r.id_like.len() == 0 ==> family_of(r) == OSFamily::UNKNOWN,
{
    reveal_strlit("debian");
    reveal_strlit("ubuntu");
    reveal_strlit("rhel");
    reveal_strlit("fedora");
    reveal_strlit("centos");
    reveal_strlit("amzn");
    reveal_strlit("rocky");
    reveal_strlit("almalinux");
    assert("rhel"@.len() != "debian"@.len() && "rhel"@.len() != "ubuntu"@.len());
    assert("fedora"@[0] != "debian"@[0] && "fedora"@[0] != "ubuntu"@[0]);
    assert("centos"@[0] != "debian"@[0] && "centos"@[0] != "ubuntu"@[0]);
    assert("amzn"@ != "debian"@ && "amzn"@ != "ubuntu"@);
    assert("rocky"@ != "debian"@ && "rocky"@ != "ubuntu"@);
    assert("almalinux"@ != "debian"@ && "almalinux"@ != "ubuntu"@);
}

} // verus!

verus! {

proof fn lemma_skip_class_spans(s: Seq<char>, k: CharClass, i: int)
    requires
        0 <= i <= s.len(),
    ensures
        i <= skip_class(s, k, i) <= s.len(),
        forall|j: int| i <= j < skip_class(s, k, i) ==> in_class(k, #[trigger] s[j]),
        skip_class(s, k, i) < s.len() ==> !in_class(k, s[skip_class(s, k, i)]),
    decreases s.len() - i,
{
    if i < s.len() && in_class(k, s[i]) {
        lemma_skip_class_spans(s, k, i + 1);
    }
}

proof fn lemma_rskip_class_spans(s: Seq<char>, k: CharClass, j: int)
    requires
        0 <= j <= s.len(),
    ensures
        0 <= rskip_class(s, k, j) <= j,
        forall|m: int| rskip_class(s, k, j) <= m < j ==> in_class(k, #[trigger] s[m]),
        rskip_class(s, k, j) > 0 ==> !in_class(k, s[rskip_class(s, k, j) - 1]),
    decreases j,
{
    if 0 < j && in_class(k, s[j - 1]) {
        lemma_rskip_class_spans(s, k, j - 1);
    }
}

/// Trimming drops exactly the characters of the class at both ends: what
/// is left is a contiguous part of the text, everything before and after
/// it is of the class, and it neither starts nor ends with one.
pub proof fn law_trim_strips_exactly_the_ends(s: Seq<char>, k: CharClass)
    ensures
        exists|a: int, b: int|
            0 <= a <= b <= s.len() && trim_class(s, k) == s.subrange(a, b) && (forall|i: int|
                0 <= i < a ==> in_class(k, #[trigger] s[i])) && (forall|i: int|
                b <= i < s.len() ==> in_class(k, #[trigger] s[i])) && (a < b ==> !in_class(k, s[a])
                && !in_class(k, s[b - 1])),
{
    lemma_skip_class_spans(s, k, 0);
    lemma_rskip_class_spans(s, k, s.len() as int);
    let a = skip_class(s, k, 0);
    let r = rskip_class(s, k, s.len() as int);
    if a >= s.len() {
        let n = s.len() as int;
        assert(trim_class(s, k) =~= s.subrange(n, n));
        assert(forall|i: int| 0 <= i < n ==> in_class(k, #[trigger] s[i]));
        assert(forall|i: int| n <= i < s.len() ==> in_class(k, #[trigger] s[i]));
    } else {
        assert(!in_class(k, s[a]));
        assert(a < r);
        assert(trim_class(s, k) == s.subrange(a, r));
        assert(forall|i: int| 0 <= i < a ==> in_class(k, #[trigger] s[i]));
        assert(forall|i: int| r <= i < s.len() ==> in_class(k, #[trigger] s[i]));
    }
}

} // verus!

verus! {

/// Keys and values lose surrounding white space (spaces, tabs, carriage
/// returns, line feeds among it) and then the double and single quotes
/// around them; letters, digits and the rest stay.
pub proof fn law_stripped_characters(c: char)
    ensures
        in_class(CharClass::Whitespace, ' '),
        in_class(CharClass::Whitespace, '\t'),
        in_class(CharClass::Whitespace, '\r'),
        in_class(CharClass::Whitespace, '\n'),
        in_class(CharClass::Quote, '"'),
        in_class(CharClass::Quote, '\''),
        in_class(CharClass::Quote, c) ==> c == '"' || c == '\'',
        ('a' <= c && c <= 'z') || ('A' <= c && c <= 'Z') || ('0' <= c && c <= '9') || c == '='
            || c == '-' || c == '_' ==> !in_class(CharClass::Whitespace, c) && !in_class(
            CharClass::Quote,
            c,
        ),
{
}

} // verus!
