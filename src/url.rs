use vstd::prelude::*;

verus! {

/// The URL scheme; selects the default port and the transport.
#[derive(Debug, PartialEq, Eq, Structural, Clone, Copy)]
pub enum Scheme {
    HTTP,
    HTTPS,
}

pub open spec fn spec_default_port(s: Scheme) -> u16 {
    match s {
        Scheme::HTTP => 80,
        Scheme::HTTPS => 443,
    }
}

impl Scheme {
    /// The canonical port of the scheme: 80 for HTTP, 443 for HTTPS.
    pub fn default_port(&self) -> (r: u16)
        ensures
            r == spec_default_port(*self),
    {
        match self {
            Scheme::HTTP => 80,
            Scheme::HTTPS => 443,
        }
    }
}

/// `i` is the position of the first `c` in `s`.
pub open spec fn is_first_index(s: Seq<char>, c: char, i: int) -> bool {
    &&& 0 <= i < s.len()
    &&& s[i] == c
    &&& forall|j: int| 0 <= j < i ==> s[j] != c
}

/// The position of the first `c` in `s`, if any.
pub open spec fn find_char(s: Seq<char>, c: char) -> Option<int> {
    if exists|i: int| is_first_index(s, c, i) {
        Some(choose|i: int| is_first_index(s, c, i))
    } else {
        None
    }
}

proof fn lemma_first_index_unique(s: Seq<char>, c: char, i: int, k: int)
    requires
        is_first_index(s, c, i),
        is_first_index(s, c, k),
    ensures
        i == k,
{
}

/// Finds the first occurrence of `c` in `s`, counted in characters.
fn find(s: &str, c: char) -> (r: Option<usize>)
    ensures
        match r {
            Some(i) => find_char(s@, c) == Some(i as int),
            None => find_char(s@, c) is None,
        },
{
    let n = s.unicode_len();
    let mut i: usize = 0;
    while i < n
        invariant
            n == s@.len(),
            i <= n,
            forall|j: int| 0 <= j < i ==> s@[j] != c,
        decreases n - i,
    {
        if s.get_char(i) == c {
            proof {
                assert(is_first_index(s@, c, i as int));
                let k = choose|k: int| is_first_index(s@, c, k);
                lemma_first_index_unique(s@, c, i as int, k);
            }
            return Some(i);
        }
        i = i + 1;
    }
    None
}


pub open spec fn is_digit(c: char) -> bool {
    ('0' as u32) <= (c as u32) && (c as u32) <= ('9' as u32)
}

/// The decimal value of a sequence of digits.
pub open spec fn digits_value(s: Seq<char>) -> nat
    decreases s.len(),
{
    if s.len() == 0 {
        0
    } else {
        digits_value(s.drop_last()) * 10 + ((s.last() as u32) - ('0' as u32)) as nat
    }
}

/// The text of a port number without its optional leading `+`.
pub open spec fn port_digits(s: Seq<char>) -> Seq<char> {
    if s.len() > 0 && s[0] == '+' {
        s.drop_first()
    } else {
        s
    }
}

pub open spec fn all_digits(d: Seq<char>) -> bool {
    forall|i: int| 0 <= i < d.len() ==> is_digit(d[i])
}

/// A port number as `u16` reads it from text: an optional `+`, then one or
/// more decimal digits whose value fits in 16 bits.
pub open spec fn parse_port(s: Seq<char>) -> Option<u16> {
    let d = port_digits(s);
    if d.len() > 0 && all_digits(d) && digits_value(d) <= 65535 {
        Some(digits_value(d) as u16)
    } else {
        None
    }
}

/// Reads a port number from `s`; `None` where `s` is not one.
fn read_port(s: &str) -> (r: Option<u16>)
    ensures
        r == parse_port(s@),
{
    let n = s.unicode_len();
    if n == 0 {
        return None;
    }
    let start: usize = if s.get_char(0) == '+' {
        1
    } else {
        0
    };
    let ghost d = port_digits(s@);
    assert(d =~= s@.subrange(start as int, n as int));
    if start == n {
        return None;
    }
    let mut v: u32 = 0;
    let mut big = false;
    let mut i: usize = start;
    while i < n
        invariant
            n == s@.len(),
            n > 0,
            start == (if s@[0] == '+' {
                1usize
            } else {
                0usize
            }),
            start <= i <= n,
            d == s@.subrange(start as int, n as int),
            d == port_digits(s@),
            forall|j: int| start <= j < i ==> is_digit(s@[j]),
            !big ==> v == digits_value(s@.subrange(start as int, i as int)) && v <= 65535,
            big ==> digits_value(s@.subrange(start as int, i as int)) > 65535,
        decreases n - i,
    {
        let c = s.get_char(i);
        if !(('0' as u32) <= (c as u32) && (c as u32) <= ('9' as u32)) {
            assert(!is_digit(d[i - start]));
            return None;
        }
        let dv: u32 = (c as u32) - ('0' as u32);
        assert(s@.subrange(start as int, i + 1).drop_last() =~= s@.subrange(start as int, i as int));
        if !big {
            let nv: u32 = v * 10 + dv;
            if nv > 65535 {
                big = true;
            } else {
                v = nv;
            }
        }
        i = i + 1;
    }
    assert(s@.subrange(start as int, n as int) == d);
    if big {
        None
    } else {
        Some(v as u16)
    }
}

/// A key and its value, as read from one `&`-separated token of a query:
/// split at the first `=`, or the whole token with an empty value.
pub open spec fn query_pair(t: Seq<char>) -> (Seq<char>, Seq<char>) {
    match find_char(t, '=') {
        Some(i) => (t.subrange(0, i), t.subrange(i + 1, t.len() as int)),
        None => (t, Seq::empty()),
    }
}

/// The pairs of a query string, one for each `&`-separated token, in order.
pub open spec fn query_pairs(s: Seq<char>) -> Seq<(Seq<char>, Seq<char>)>
    decreases s.len(),
{
    match find_char(s, '&') {
        Some(i) => if 0 <= i < s.len() {
            seq![query_pair(s.subrange(0, i))] + query_pairs(s.subrange(i + 1, s.len() as int))
        } else {
            Seq::empty()
        },
        None => seq![query_pair(s)],
    }
}

/// The view of a list of borrowed pairs.
pub open spec fn pairs_view(v: Seq<(&str, &str)>) -> Seq<(Seq<char>, Seq<char>)> {
    v.map_values(|p: (&str, &str)| (p.0@, p.1@))
}

fn read_pair<'a>(t: &'a str) -> (r: (&'a str, &'a str))
    ensures
        (r.0@, r.1@) == query_pair(t@),
{
    match find(t, '=') {
        Some(i) => {
            let n = t.unicode_len();
            (t.substring_char(0, i), t.substring_char(i + 1, n))
        },
        None => {
            proof {
                reveal_strlit("");
            }
            (t, "")
        },
    }
}

/// The key/value pairs of a URL's query, in the order they appear;
/// keys may repeat.
#[derive(Debug, Clone)]
pub struct Query<'a> {
    data: Vec<(&'a str, &'a str)>,
}

impl<'a> View for Query<'a> {
    type V = Seq<(Seq<char>, Seq<char>)>;

    closed spec fn view(&self) -> Seq<(Seq<char>, Seq<char>)> {
        pairs_view(self.data@)
    }
}

impl<'a> Query<'a> {
    /// An empty query.
    pub fn new() -> (r: Query<'a>)
        ensures
            r@ == Seq::<(Seq<char>, Seq<char>)>::empty(),
    {
        let r = Query { data: Vec::new() };
        assert(r@ =~= Seq::<(Seq<char>, Seq<char>)>::empty());
        r
    }

    /// Parses a query string: splits it at every `&`, then each token at
    /// its first `=`.
    pub fn from(value: &'a str) -> (r: Query<'a>)
        ensures
            r@ == query_pairs(value@),
    {
        let mut data: Vec<(&'a str, &'a str)> = Vec::new();
        let mut rest: &'a str = value;
        loop
            invariant_except_break
                pairs_view(data@) + query_pairs(rest@) == query_pairs(value@),
            ensures
                pairs_view(data@) == query_pairs(value@),
            decreases rest@.len(),
        {
            match find(rest, '&') {
                Some(i) => {
                    let n = rest.unicode_len();
                    let tok = rest.substring_char(0, i);
                    let p = read_pair(tok);
                    let next = rest.substring_char(i + 1, n);
                    let ghost old_data = data@;
                    data.push(p);
                    assert(pairs_view(data@) =~= pairs_view(old_data) + seq![query_pair(tok@)]);
                    assert(pairs_view(data@) + query_pairs(next@) =~= pairs_view(old_data)
                        + query_pairs(rest@));
                    rest = next;
                },
                None => {
                    let p = read_pair(rest);
                    let ghost old_data = data@;
                    data.push(p);
                    assert(pairs_view(data@) =~= pairs_view(old_data) + query_pairs(rest@));
                    break;
                },
            }
        }
        Query { data }
    }

    /// Whether the query holds no pair.
    pub fn is_empty(&self) -> (r: bool)
        ensures
            r == (self@.len() == 0),
    {
        self.data.len() == 0
    }

    /// The pairs, in order.
    pub fn to_vec(self) -> (r: Vec<(&'a str, &'a str)>)
        ensures
            pairs_view(r@) == self@,
    {
        self.data
    }
}


pub open spec fn http_prefix() -> Seq<char> {
    seq!['h', 't', 't', 'p', ':', '/', '/']
}

pub open spec fn https_prefix() -> Seq<char> {
    seq!['h', 't', 't', 'p', 's', ':', '/', '/']
}

pub open spec fn has_prefix(s: Seq<char>, p: Seq<char>) -> bool {
    p.len() <= s.len() && s.subrange(0, p.len() as int) == p
}

/// The scheme of `s` and what follows its prefix; without a known prefix,
/// HTTP and the whole text.
pub open spec fn split_scheme(s: Seq<char>) -> (Scheme, Seq<char>) {
    if has_prefix(s, http_prefix()) {
        (Scheme::HTTP, s.skip(7))
    } else if has_prefix(s, https_prefix()) {
        (Scheme::HTTPS, s.skip(8))
    } else {
        (Scheme::HTTP, s)
    }
}

/// The port written in `s`, or `default` where `s` is not a port number.
pub open spec fn port_or(s: Seq<char>, default: u16) -> u16 {
    match parse_port(s) {
        Some(p) => p,
        None => default,
    }
}

/// Host, port and the rest, from the text after the scheme: a `:` that comes
/// before the first `/` starts a port.
pub open spec fn split_authority(s: Seq<char>, scheme: Scheme) -> (Seq<char>, u16, Seq<char>) {
    let dp = spec_default_port(scheme);
    match (find_char(s, '/'), find_char(s, ':')) {
        (Some(path), Some(port)) => if port < path {
            (s.take(port), port_or(s.subrange(port + 1, path), dp), s.skip(path))
        } else {
            (s.take(path), dp, s.skip(path))
        },
        (None, Some(port)) => (s.take(port), port_or(s.skip(port + 1), dp), Seq::empty()),
        (Some(path), None) => (s.take(path), dp, s.skip(path)),
        (None, None) => (s, dp, Seq::empty()),
    }
}

/// The rest without its fragment, and the fragment: all that follows the
/// first `#`, as it stands.
pub open spec fn split_fragment(s: Seq<char>) -> (Seq<char>, Seq<char>) {
    match find_char(s, '#') {
        Some(i) => (s.take(i), s.skip(i + 1)),
        None => (s, Seq::empty()),
    }
}

/// The path and the query pairs, split at the first `?`.
pub open spec fn split_query(s: Seq<char>) -> (Seq<char>, Seq<(Seq<char>, Seq<char>)>) {
    match find_char(s, '?') {
        Some(i) => (s.take(i), query_pairs(s.skip(i + 1))),
        None => (s, Seq::empty()),
    }
}

/// What a URL is made of, as values.
pub struct UrlView {
    pub scheme: Scheme,
    pub host: Seq<char>,
    pub port: u16,
    pub path: Seq<char>,
    pub query: Seq<(Seq<char>, Seq<char>)>,
    pub fragment: Seq<char>,
}

/// The URL that the text `s` denotes: the scheme first, then host and port,
/// then the fragment, and only then the query, in what the fragment left.
pub open spec fn parse_url(s: Seq<char>) -> UrlView {
    let (scheme, after_scheme) = split_scheme(s);
    let (host, port, rest) = split_authority(after_scheme, scheme);
    let (before_fragment, fragment) = split_fragment(rest);
    let (path, query) = split_query(before_fragment);
    UrlView { scheme, host, port, path, query, fragment }
}

/// Where the text after the scheme holds no `:` and no `/`, all of it is
/// the host, the port is the scheme's default, and path, query and fragment
/// are empty.
pub proof fn lemma_host_only(s: Seq<char>)
    requires
        forall|i: int|
            0 <= i < split_scheme(s).1.len() ==> split_scheme(s).1[i] != ':'
                && split_scheme(s).1[i] != '/',
    ensures
        parse_url(s).host == split_scheme(s).1,
        parse_url(s).port == spec_default_port(parse_url(s).scheme),
        parse_url(s).path.len() == 0,
        parse_url(s).query.len() == 0,
        parse_url(s).fragment.len() == 0,
{
    let rest = split_scheme(s).1;
    if let Some(i) = find_char(rest, '/') {
        assert(is_first_index(rest, '/', i));
    }
    if let Some(i) = find_char(rest, ':') {
        assert(is_first_index(rest, ':', i));
    }
    let e = Seq::<char>::empty();
    if let Some(i) = find_char(e, '#') {
        assert(is_first_index(e, '#', i));
    }
    if let Some(i) = find_char(e, '?') {
        assert(is_first_index(e, '?', i));
    }
}

/// The text after host and port, where the path, query and fragment stand.
pub open spec fn after_authority(s: Seq<char>) -> Seq<char> {
    split_authority(split_scheme(s).1, split_scheme(s).0).2
}

/// A `?` that follows the first `#` belongs to the fragment: where no `?`
/// comes before the first `#`, the query is empty, the path is all that
/// comes before the `#`, and the fragment all that follows it.
pub proof fn lemma_fragment_before_query(s: Seq<char>, i: int)
    requires
        find_char(after_authority(s), '#') == Some(i),
        forall|j: int| 0 <= j < i ==> after_authority(s)[j] != '?',
    ensures
        parse_url(s).query.len() == 0,
        parse_url(s).path == after_authority(s).take(i),
        parse_url(s).fragment == after_authority(s).skip(i + 1),
{
    let r = after_authority(s);
    assert(is_first_index(r, '#', i));
    let before = r.take(i);
    if let Some(k) = find_char(before, '?') {
        assert(is_first_index(before, '?', k));
        assert(before[k] == r[k]);
    }
}

/// No character of `s` is `c`.
pub open spec fn lacks(s: Seq<char>, c: char) -> bool {
    forall|i: int| 0 <= i < s.len() ==> s[i] != c
}

proof fn lemma_first_exists(s: Seq<char>, c: char, j: int)
    requires
        0 <= j < s.len(),
        s[j] == c,
    ensures
        exists|i: int| is_first_index(s, c, i),
    decreases j,
{
    if exists|k: int| 0 <= k < j && s[k] == c {
        let k = choose|k: int| 0 <= k < j && s[k] == c;
        lemma_first_exists(s, c, k);
    } else {
        assert(is_first_index(s, c, j));
    }
}

/// What `find_char` says: the first position of `c`, or that there is none.
proof fn lemma_find_char(s: Seq<char>, c: char)
    ensures
        match find_char(s, c) {
            Some(i) => is_first_index(s, c, i),
            None => lacks(s, c),
        },
{
    if find_char(s, c) is None {
        assert forall|j: int| 0 <= j < s.len() implies s[j] != c by {
            if s[j] == c {
                lemma_first_exists(s, c, j);
            }
        }
    }
}

/// The shape of every parse: the host holds no `:` and no `/`; the path is
/// empty or starts with `/`, and holds no `?` and no `#`.
pub proof fn lemma_parts_shape(s: Seq<char>)
    ensures
        lacks(parse_url(s).host, ':'),
        lacks(parse_url(s).host, '/'),
        parse_url(s).path.len() == 0 || parse_url(s).path[0] == '/',
        lacks(parse_url(s).path, '?'),
        lacks(parse_url(s).path, '#'),
{
    let rest = split_scheme(s).1;
    lemma_find_char(rest, '/');
    lemma_find_char(rest, ':');
    let tail = split_authority(rest, split_scheme(s).0).2;
    assert(tail.len() == 0 || tail[0] == '/');
    lemma_find_char(tail, '#');
    let before = split_fragment(tail).0;
    assert(lacks(before, '#'));
    lemma_find_char(before, '?');
    let path = split_query(before).0;
    assert(lacks(path, '?'));
    assert(path.len() == 0 || path[0] == '/');
}

/// Whether `s` starts with `p`.
fn starts_with(s: &str, p: &str) -> (r: bool)
    ensures
        r == has_prefix(s@, p@),
{
    let n = s.unicode_len();
    let m = p.unicode_len();
    if m > n {
        return false;
    }
    let mut i: usize = 0;
    while i < m
        invariant
            n == s@.len(),
            m == p@.len(),
            m <= n,
            i <= m,
            forall|j: int| 0 <= j < i ==> s@[j] == p@[j],
        decreases m - i,
    {
        if s.get_char(i) != p.get_char(i) {
            assert(s@.subrange(0, m as int)[i as int] != p@[i as int]);
            return false;
        }
        i = i + 1;
    }
    assert(s@.subrange(0, m as int) =~= p@);
    true
}

fn strip_scheme<'a>(value: &'a str) -> (r: (Scheme, &'a str))
    ensures
        (r.0, r.1@) == split_scheme(value@),
{
    proof {
        reveal_strlit("http://");
        reveal_strlit("https://");
    }
    assert("http://"@ =~= http_prefix());
    assert("https://"@ =~= https_prefix());
    let n = value.unicode_len();
    if starts_with(value, "http://") {
        (Scheme::HTTP, value.substring_char(7, n))
    } else if starts_with(value, "https://") {
        (Scheme::HTTPS, value.substring_char(8, n))
    } else {
        (Scheme::HTTP, value)
    }
}

fn port_or_default(s: &str, default: u16) -> (r: u16)
    ensures
        r == port_or(s@, default),
{
    match read_port(s) {
        Some(p) => p,
        None => default,
    }
}

fn split_host_port<'a>(value: &'a str, scheme: Scheme) -> (r: (&'a str, u16, &'a str))
    ensures
        (r.0@, r.1, r.2@) == split_authority(value@, scheme),
{
    proof {
        reveal_strlit("");
    }
    let n = value.unicode_len();
    let dp = scheme.default_port();
    match (find(value, '/'), find(value, ':')) {
        (Some(path), Some(port)) => {
            if port < path {
                let p = port_or_default(value.substring_char(port + 1, path), dp);
                (value.substring_char(0, port), p, value.substring_char(path, n))
            } else {
                (value.substring_char(0, path), dp, value.substring_char(path, n))
            }
        },
        (None, Some(port)) => {
            let p = port_or_default(value.substring_char(port + 1, n), dp);
            (value.substring_char(0, port), p, "")
        },
        (Some(path), None) => (value.substring_char(0, path), dp, value.substring_char(path, n)),
        (None, None) => (value, dp, ""),
    }
}

fn strip_fragment<'a>(value: &'a str) -> (r: (&'a str, &'a str))
    ensures
        (r.0@, r.1@) == split_fragment(value@),
{
    proof {
        reveal_strlit("");
    }
    let n = value.unicode_len();
    match find(value, '#') {
        Some(i) => (value.substring_char(0, i), value.substring_char(i + 1, n)),
        None => (value, ""),
    }
}

fn strip_query<'a>(value: &'a str) -> (r: (&'a str, Query<'a>))
    ensures
        (r.0@, r.1@) == split_query(value@),
{
    let n = value.unicode_len();
    match find(value, '?') {
        Some(i) => (value.substring_char(0, i), Query::from(value.substring_char(i + 1, n))),
        None => (value, Query::new()),
    }
}

/// A URL, split into its parts; the parts borrow from the parsed text.
#[derive(Debug, Clone)]
pub struct Url<'a> {
    scheme: Scheme,
    host: &'a str,
    port: u16,
    path: &'a str,
    query: Query<'a>,
    fragment: &'a str,
}

impl<'a> View for Url<'a> {
    type V = UrlView;

    closed spec fn view(&self) -> UrlView {
        UrlView {
            scheme: self.scheme,
            host: self.host@,
            port: self.port,
            path: self.path@,
            query: self.query@,
            fragment: self.fragment@,
        }
    }
}

impl<'a> Url<'a> {
    /// Splits `value` into a URL. Never fails: a missing part takes its
    /// default, and a port that is not a number gives the scheme's port.
    pub fn from(value: &'a str) -> (r: Url<'a>)
        ensures
            r@ == parse_url(value@),
    {
        let (scheme, after_scheme) = strip_scheme(value);
        let (host, port, rest) = split_host_port(after_scheme, scheme);
        let (before_fragment, fragment) = strip_fragment(rest);
        let (path, query) = strip_query(before_fragment);
        let r = Url { scheme, host, port, path, query, fragment };
        assert(r@ =~= parse_url(value@));
        r
    }

    /// The scheme.
    pub fn scheme(&self) -> (r: Scheme)
        ensures
            r == self@.scheme,
    {
        self.scheme
    }

    /// The host: the text between the scheme and the first `:` or `/`.
    pub fn host(&self) -> (r: &'a str)
        ensures
            r@ == self@.host,
    {
        self.host
    }

    /// The port: written after the host, or the scheme's default.
    pub fn port(&self) -> (r: u16)
        ensures
            r == self@.port,
    {
        self.port
    }

    /// The path, from the first `/` after the host; empty where there is none.
    pub fn path(&self) -> (r: &'a str)
        ensures
            r@ == self@.path,
    {
        self.path
    }

    /// The query pairs.
    pub fn query(&self) -> (r: &Query<'a>)
        ensures
            r@ == self@.query,
    {
        &self.query
    }

    /// The fragment: all that follows the first `#` after the host.
    pub fn fragment(&self) -> (r: &'a str)
        ensures
            r@ == self@.fragment,
    {
        self.fragment
    }
}

} // verus!
