//! The session's cookie jar and its durable form.
//!
//! The jar holds raw `name=value` fragments for the API's domain, one per
//! cookie name. Adding a raw cookie string keeps only its first
//! `;`-delimited fragment, trimmed, and replaces any fragment that carries
//! the same name. The durable form is the ordered list of fragments,
//! serialized as a JSON array of strings.

use vstd::prelude::*;
use vstd::string::*;

use crate::strutil::first_index_of;
use crate::strutil::lemma_first_index_of_props;
use crate::strutil::lemma_trim_end_if_take;
use crate::strutil::lemma_trim_start_if_skip;
use crate::strutil::quote_pred;
use crate::strutil::space_pred;
use crate::strutil::trim_if;
use crate::strutil::trim_spec;
use crate::strutil::trim_start_if;
use crate::strutil::trim_end_if;
use crate::strutil::find_char;
use crate::strutil::trim_str;
use crate::strutil::trim_quotes;

verus! {

/// The name of a cookie fragment: everything before the first `=`.
pub open spec fn cookie_name(s: Seq<char>) -> Seq<char> {
    s.take(first_index_of(s, '='))
}

/// The value of a cookie fragment: everything after the first `=`, or empty
/// if the fragment has no `=`.
pub open spec fn cookie_value(s: Seq<char>) -> Seq<char> {
    if first_index_of(s, '=') < s.len() {
        s.skip(first_index_of(s, '=') + 1)
    } else {
        Seq::<char>::empty()
    }
}

/// The fragment that the jar keeps of a raw cookie string: the part before
/// the first `;`, with surrounding whitespace removed.
pub open spec fn canonical_fragment(s: Seq<char>) -> Seq<char> {
    trim_spec(s.take(first_index_of(s, ';')))
}

/// A fragment as the jar stores it: non-empty, free of `;`, and trimmed.
pub open spec fn is_canonical_entry(s: Seq<char>) -> bool {
    &&& s.len() > 0
    &&& first_index_of(s, ';') == s.len()
    &&& trim_spec(s) == s
}

/// The jar invariant: every entry is a canonical fragment and no two
/// entries share a cookie name.
pub open spec fn jar_wf(entries: Seq<Seq<char>>) -> bool {
    &&& forall|k: int| 0 <= k < entries.len() ==> is_canonical_entry(#[trigger] entries[k])
    &&& forall|k1: int, k2: int|
        0 <= k1 < k2 < entries.len() ==> cookie_name(#[trigger] entries[k1]) != cookie_name(
            #[trigger] entries[k2],
        )
}

/// The index of the first entry whose name is `name`, or `entries.len()` if
/// no entry carries it.
pub open spec fn find_name_index(entries: Seq<Seq<char>>, name: Seq<char>) -> int
    decreases entries.len(),
{
    if entries.len() == 0 {
        0
    } else if cookie_name(entries[0]) == name {
        0
    } else {
        1 + find_name_index(entries.drop_first(), name)
    }
}

pub proof fn lemma_find_name_index_props(entries: Seq<Seq<char>>, name: Seq<char>)
    ensures
        0 <= find_name_index(entries, name) <= entries.len(),
        find_name_index(entries, name) < entries.len() ==> cookie_name(
            entries[find_name_index(entries, name)],
        ) == name,
        forall|j: int|
            0 <= j < find_name_index(entries, name) ==> cookie_name(#[trigger] entries[j]) != name,
    decreases entries.len(),
{
    if entries.len() > 0 && cookie_name(entries[0]) != name {
        lemma_find_name_index_props(entries.drop_first(), name);
        assert forall|j: int| 0 <= j < find_name_index(entries, name) implies cookie_name(
            #[trigger] entries[j],
        ) != name by {
            if j > 0 {
                assert(entries.drop_first()[j - 1] == entries[j]);
            }
        }
    }
}

proof fn lemma_find_name_index_from_scan(entries: Seq<Seq<char>>, name: Seq<char>, i: int)
    requires
        0 <= i <= entries.len(),
        forall|j: int| 0 <= j < i ==> cookie_name(#[trigger] entries[j]) != name,
        i < entries.len() ==> cookie_name(entries[i]) == name,
    ensures
        find_name_index(entries, name) == i,
    decreases i,
{
    if entries.len() == 0 {
    } else if i == 0 {
    } else {
        assert(cookie_name(entries[0]) != name);
        assert forall|j: int| 0 <= j < i - 1 implies cookie_name(
            #[trigger] entries.drop_first()[j],
        ) != name by {
            assert(entries.drop_first()[j] == entries[j + 1]);
        }
        assert(i - 1 < entries.drop_first().len() ==> entries.drop_first()[i - 1] == entries[i]);
        lemma_find_name_index_from_scan(entries.drop_first(), name, i - 1);
    }
}

/// Every character of a trimmed sequence comes from the input sequence,
/// and its ends do not satisfy the predicate.
proof fn lemma_trim_start_if_suffix(s: Seq<char>, p: spec_fn(char) -> bool)
    ensures
        trim_start_if(s, p).len() <= s.len(),
        forall|j: int|
            0 <= j < trim_start_if(s, p).len() ==> #[trigger] trim_start_if(s, p)[j] == s[s.len()
                - trim_start_if(s, p).len() + j],
        trim_start_if(s, p).len() > 0 ==> !p(trim_start_if(s, p)[0]),
    decreases s.len(),
{
    if s.len() > 0 && p(s[0]) {
        lemma_trim_start_if_suffix(s.drop_first(), p);
        assert forall|j: int| 0 <= j < trim_start_if(s, p).len() implies #[trigger] trim_start_if(
            s,
            p,
        )[j] == s[s.len() - trim_start_if(s, p).len() + j] by {
            assert(trim_start_if(s, p) == trim_start_if(s.drop_first(), p));
            assert(s.drop_first()[s.drop_first().len() - trim_start_if(s, p).len() + j] == s[s.len()
                - trim_start_if(s, p).len() + j]);
        }
    }
}

proof fn lemma_trim_end_if_prefix(s: Seq<char>, p: spec_fn(char) -> bool)
    ensures
        trim_end_if(s, p).len() <= s.len(),
        forall|j: int|
            0 <= j < trim_end_if(s, p).len() ==> #[trigger] trim_end_if(s, p)[j] == s[j],
        trim_end_if(s, p).len() > 0 ==> !p(trim_end_if(s, p).last()),
    decreases s.len(),
{
    if s.len() > 0 && p(s.last()) {
        lemma_trim_end_if_prefix(s.drop_last(), p);
    }
}

/// A canonical entry is its own fragment.
pub proof fn lemma_canonical_fragment_of_canonical(s: Seq<char>)
    requires
        is_canonical_entry(s),
    ensures
        canonical_fragment(s) == s,
{
    assert(s.take(first_index_of(s, ';')) =~= s);
}

/// The fragment of any raw string is canonical or empty.
proof fn lemma_fragment_canonical(raw: Seq<char>)
    ensures
        canonical_fragment(raw).len() > 0 ==> is_canonical_entry(canonical_fragment(raw)),
{
    let p = space_pred();
    let pre = raw.take(first_index_of(raw, ';'));
    let frag = canonical_fragment(raw);
    lemma_first_index_of_props(raw, ';');
    lemma_trim_start_if_suffix(pre, p);
    lemma_trim_end_if_prefix(trim_start_if(pre, p), p);
    if frag.len() > 0 {
        let ts = trim_start_if(pre, p);
        assert forall|j: int| 0 <= j < frag.len() implies frag[j] != ';' by {
            assert(frag[j] == ts[j]);
            assert(ts[j] == pre[pre.len() - ts.len() + j]);
            assert(pre[pre.len() - ts.len() + j] == raw[pre.len() - ts.len() + j]);
        }
        crate::strutil::lemma_first_index_of_props(frag, ';');
        if first_index_of(frag, ';') < frag.len() {
            assert(frag[first_index_of(frag, ';')] == ';');
        }
        // trimming again changes nothing: both ends are not whitespace
        assert(frag[0] == ts[0]);
        assert(!p(frag[0]));
        assert(!p(frag.last()));
        lemma_trim_start_if_skip(frag, p, 0);
        assert(trim_start_if(frag, p) =~= frag);
        lemma_trim_end_if_take(frag, p, frag.len() as int);
        assert(frag.take(frag.len() as int) =~= frag);
    }
}

/// The jar: one canonical `name=value` fragment per cookie name, in
/// insertion order.
pub struct CookieJar {
    entries: Vec<String>,
}

impl View for CookieJar {
    type V = Seq<Seq<char>>;

    closed spec fn view(&self) -> Seq<Seq<char>> {
        self.entries.deep_view()
    }
}

impl CookieJar {
    pub open spec fn wf(&self) -> bool {
        jar_wf(self@)
    }

    /// What adding one raw cookie string does to the jar's entries.
    pub open spec fn add_spec(entries: Seq<Seq<char>>, raw: Seq<char>) -> Seq<Seq<char>> {
        let frag = canonical_fragment(raw);
        if frag.len() == 0 {
            entries
        } else {
            let idx = find_name_index(entries, cookie_name(frag));
            if idx < entries.len() {
                entries.update(idx, frag)
            } else {
                entries.push(frag)
            }
        }
    }

    /// An empty jar.
    pub fn new() -> (jar: CookieJar)
        ensures
            jar@ == Seq::<Seq<char>>::empty(),
            jar.wf(),
    {
        let jar = CookieJar { entries: Vec::new() };
        proof {
            assert(jar@ =~= Seq::<Seq<char>>::empty());
        }
        jar
    }

    /// Adds one raw cookie string: keeps the fragment before the first `;`,
    /// trimmed, and replaces the entry with the same name if one exists.
    /// An empty fragment leaves the jar unchanged.
    pub fn add_cookie_str(&mut self, raw: &str)
        requires
            old(self).wf(),
        ensures
            final(self)@ == Self::add_spec(old(self)@, raw@),
            final(self).wf(),
    {
        let semi = find_char(raw, ';');
        let prefix = raw.substring_char(0, semi);
        let frag = trim_str(prefix);
        proof {
            assert(prefix@ =~= raw@.take(first_index_of(raw@, ';')));
            assert(frag@ == canonical_fragment(raw@));
            lemma_fragment_canonical(raw@);
        }
        if frag.as_str().unicode_len() == 0 {
            proof {
                assert(frag@.len() == 0);
            }
            return ;
        }
        let eq = find_char(frag.as_str(), '=');
        let name = frag.as_str().substring_char(0, eq).to_owned();
        proof {
            assert(name@ =~= cookie_name(frag@));
        }
        let ghost gname = cookie_name(frag@);
        let mut k: usize = 0;
        let n = self.entries.len();
        while k < n
            invariant
                self == old(self),
                n == self.entries.len(),
                k <= n,
                self.wf(),
                name@ == gname,
                frag@ == canonical_fragment(raw@),
                is_canonical_entry(frag@),
                gname == cookie_name(frag@),
                forall|j: int| 0 <= j < k ==> cookie_name(#[trigger] self@[j]) != gname,
            decreases n - k,
        {
            let e_eq = find_char(self.entries[k].as_str(), '=');
            let e_name = self.entries[k].as_str().substring_char(0, e_eq).to_owned();
            proof {
                assert(self.entries[k as int]@ == self@[k as int]);
                assert(e_name@ =~= cookie_name(self@[k as int]));
            }
            if e_name == name {
                proof {
                    lemma_find_name_index_from_scan(self@, gname, k as int);
                }
                let ghost old_view = self@;
                self.entries.set(k, frag);
                proof {
                    assert(self@ =~= old_view.update(k as int, frag@));
                    assert forall|j: int| 0 <= j < self@.len() implies is_canonical_entry(
                        #[trigger] self@[j],
                    ) by {
                        if j != k {
                            assert(self@[j] == old_view[j]);
                        }
                    }
                    assert forall|k1: int, k2: int|
                        0 <= k1 < k2 < self@.len() implies cookie_name(#[trigger] self@[k1])
                        != cookie_name(#[trigger] self@[k2]) by {
                        assert(cookie_name(self@[k as int]) == cookie_name(old_view[k as int]));
                        if k1 != k {
                            assert(self@[k1] == old_view[k1]);
                        }
                        if k2 != k {
                            assert(self@[k2] == old_view[k2]);
                        }
                    }
                }
                return ;
            }
            k = k + 1;
        }
        proof {
            lemma_find_name_index_from_scan(self@, gname, n as int);
        }
        let ghost old_view = self@;
        self.entries.push(frag);
        proof {
            assert(self@ =~= old_view.push(frag@));
            assert forall|j: int| 0 <= j < self@.len() implies is_canonical_entry(
                #[trigger] self@[j],
            ) by {
                if j < old_view.len() {
                    assert(self@[j] == old_view[j]);
                }
            }
            assert forall|k1: int, k2: int| 0 <= k1 < k2 < self@.len() implies cookie_name(
                #[trigger] self@[k1],
            ) != cookie_name(#[trigger] self@[k2]) by {
                if k2 < old_view.len() {
                    assert(self@[k1] == old_view[k1]);
                    assert(self@[k2] == old_view[k2]);
                } else {
                    assert(self@[k2] == frag@);
                    assert(self@[k1] == old_view[k1]);
                }
            }
        }
    }

    /// What injecting a list of raw cookie strings, in order, does to the
    /// jar's entries.
    pub open spec fn inject_spec(entries: Seq<Seq<char>>, cookies: Seq<Seq<char>>) -> Seq<
        Seq<char>,
    >
        decreases cookies.len(),
    {
        if cookies.len() == 0 {
            entries
        } else {
            Self::inject_spec(Self::add_spec(entries, cookies[0]), cookies.drop_first())
        }
    }

    proof fn lemma_inject_spec_push(entries: Seq<Seq<char>>, cookies: Seq<Seq<char>>, x: Seq<char>)
        ensures
            Self::inject_spec(entries, cookies.push(x)) == Self::add_spec(
                Self::inject_spec(entries, cookies),
                x,
            ),
        decreases cookies.len(),
    {
        if cookies.len() == 0 {
            assert(cookies.push(x)[0] == x);
            assert(cookies.push(x).drop_first() =~= Seq::<Seq<char>>::empty());
            assert(Self::inject_spec(entries, cookies.push(x)) == Self::inject_spec(
                Self::add_spec(entries, x),
                Seq::<Seq<char>>::empty(),
            ));
            assert(Self::inject_spec(Self::add_spec(entries, x), Seq::<Seq<char>>::empty())
                == Self::add_spec(entries, x));
            assert(Self::inject_spec(entries, cookies) == entries);
        } else {
            let c0 = cookies[0];
            assert(cookies.push(x)[0] == c0);
            assert(cookies.push(x).drop_first() =~= cookies.drop_first().push(x));
            assert(Self::inject_spec(entries, cookies.push(x)) == Self::inject_spec(
                Self::add_spec(entries, c0),
                cookies.drop_first().push(x),
            ));
            Self::lemma_inject_spec_push(Self::add_spec(entries, c0), cookies.drop_first(), x);
            assert(Self::inject_spec(entries, cookies) == Self::inject_spec(
                Self::add_spec(entries, c0),
                cookies.drop_first(),
            ));
        }
    }

    /// Injects every cookie of `cookies`, in order.
    pub fn inject_all(&mut self, cookies: &Vec<String>)
        requires
            old(self).wf(),
        ensures
            final(self)@ == Self::inject_spec(old(self)@, cookies.deep_view()),
            final(self).wf(),
    {
        let ghost base = self@;
        let mut k: usize = 0;
        let n = cookies.len();
        proof {
            assert(cookies.deep_view().take(0) =~= Seq::<Seq<char>>::empty());
        }
        while k < n
            invariant
                n == cookies.len(),
                k <= n,
                self.wf(),
                self@ == Self::inject_spec(base, cookies.deep_view().take(k as int)),
            decreases n - k,
        {
            self.add_cookie_str(cookies[k].as_str());
            proof {
                let dv = cookies.deep_view();
                assert(dv.take(k + 1 as int) =~= dv.take(k as int).push(dv[k as int]));
                Self::lemma_inject_spec_push(base, dv.take(k as int), dv[k as int]);
                assert(cookies[k as int]@ == dv[k as int]);
            }
            k = k + 1;
        }
        proof {
            assert(cookies.deep_view().take(n as int) =~= cookies.deep_view());
        }
    }

    /// The raw cookie fragments currently in the jar, in order.
    pub fn cookies_list(&self) -> (r: Vec<String>)
        ensures
            r.deep_view() == self@,
    {
        let mut out: Vec<String> = Vec::new();
        let mut k: usize = 0;
        let n = self.entries.len();
        proof {
            assert(out.deep_view() =~= self@.take(0));
        }
        while k < n
            invariant
                n == self.entries.len(),
                k <= n,
                out.deep_view() =~= self@.take(k as int),
            decreases n - k,
        {
            let ghost old_dv = out.deep_view();
            let e = self.entries[k].clone();
            out.push(e);
            proof {
                assert(out.deep_view() =~= old_dv.push(e@));
                assert(e@ == self@[k as int]);
                assert(out.deep_view() =~= self@.take(k + 1 as int));
            }
            k = k + 1;
        }
        proof {
            assert(self@.take(n as int) =~= self@);
        }
        out
    }

    /// The current session id: the value of the `JSESSIONID` cookie with
    /// surrounding quotes removed, or the empty string if the jar holds no
    /// such cookie.
    pub fn current_session_id(&self) -> (r: String)
        ensures
            r@ == session_id_of(self@),
    {
        let key = "JSESSIONID".to_owned();
        let mut k: usize = 0;
        let n = self.entries.len();
        while k < n
            invariant
                n == self.entries.len(),
                k <= n,
                key@ == session_key(),
                forall|j: int| 0 <= j < k ==> cookie_name(#[trigger] self@[j]) != session_key(),
            decreases n - k,
        {
            let e_eq = find_char(self.entries[k].as_str(), '=');
            let e_name = self.entries[k].as_str().substring_char(0, e_eq).to_owned();
            proof {
                assert(self.entries[k as int]@ == self@[k as int]);
                assert(e_name@ =~= cookie_name(self@[k as int]));
            }
            if e_name == key {
                proof {
                    lemma_find_name_index_from_scan(self@, session_key(), k as int);
                }
                let e_len = self.entries[k].as_str().unicode_len();
                let value = if e_eq < e_len {
                    let v = self.entries[k].as_str().substring_char(e_eq + 1, e_len);
                    proof {
                        assert(v@ =~= cookie_value(self@[k as int]));
                    }
                    v
                } else {
                    proof {
                        reveal_strlit("");
                        assert(""@ =~= cookie_value(self@[k as int]));
                    }
                    ""
                };
                let r = trim_quotes(value);
                return r;
            }
            k = k + 1;
        }
        proof {
            lemma_find_name_index_from_scan(self@, session_key(), n as int);
        }
        String::new()
    }
}

/// The name of the session-id cookie.
pub open spec fn session_key() -> Seq<char> {
    "JSESSIONID"@
}

/// The session id the jar holds: the quoted-stripped value of the first
/// entry named `JSESSIONID`, or empty if there is none.
pub open spec fn session_id_of(entries: Seq<Seq<char>>) -> Seq<char> {
    let idx = find_name_index(entries, session_key());
    if idx < entries.len() {
        trim_if(cookie_value(entries[idx]), quote_pred())
    } else {
        Seq::<char>::empty()
    }
}

/// The JSON text of a cookie list, as the serializer produces it.
pub uninterp spec fn cookie_list_json(cookies: Seq<Seq<char>>) -> Seq<char>;

/// Relies on serde_json::to_string: the JSON text of a list of strings is a
/// function of the list alone, and serializing a vector of strings cannot
/// fail — failure needs a failing `Serialize` impl or a map with
/// non-string keys, and a string list has neither.
#[verifier::external_body]
pub fn encode_cookie_list(cookies: &Vec<String>) -> (r: Option<String>)
    ensures
        r is Some,
        r matches Some(s) ==> s@ == cookie_list_json(cookies.deep_view()),
{
    serde_json::to_string(cookies).ok()
}

/// Whether a text decodes as a JSON list of strings.
pub uninterp spec fn is_cookie_list_text(s: Seq<char>) -> bool;

/// The cookie list a decodable text decodes to; meaningful only where
/// `is_cookie_list_text` holds.
pub uninterp spec fn decoded_cookie_list(s: Seq<char>) -> Seq<Seq<char>>;

/// Holds when `r` is what decoding the text `s` must yield: whenever `s` is
/// the serializer's output for some cookie list, decoding recovers exactly
/// that list.
pub open spec fn decodes_cookie_list(s: Seq<char>, r: Option<Vec<String>>) -> bool {
    forall|cookies: Seq<Seq<char>>|
        s == #[trigger] cookie_list_json(cookies) ==> (r matches Some(v) && v.deep_view()
            == cookies)
}

/// Relies on serde_json::from_str: whether a text parses as a list of
/// strings, and which list it parses to, are functions of the text alone;
/// and parsing the text that serde_json::to_string produced for a list of
/// strings yields that same list back.
#[verifier::external_body]
pub fn decode_cookie_list(s: &str) -> (r: Option<Vec<String>>)
    ensures
        r is Some <==> is_cookie_list_text(s@),
        r matches Some(v) ==> v.deep_view() == decoded_cookie_list(s@),
        decodes_cookie_list(s@, r),
{
    serde_json::from_str::<Vec<String>>(s).ok()
}

/// Injecting a well-formed cookie list into a jar whose names are disjoint
/// from the list's appends the list unchanged.
proof fn lemma_inject_disjoint_appends(entries: Seq<Seq<char>>, cookies: Seq<Seq<char>>)
    requires
        jar_wf(cookies),
        forall|i: int, j: int|
            0 <= i < entries.len() && 0 <= j < cookies.len() ==> cookie_name(
                #[trigger] entries[i],
            ) != cookie_name(#[trigger] cookies[j]),
    ensures
        CookieJar::inject_spec(entries, cookies) == entries + cookies,
    decreases cookies.len(),
{
    if cookies.len() == 0 {
        assert(entries + cookies =~= entries);
    } else {
        let c0 = cookies[0];
        assert(is_canonical_entry(c0));
        lemma_canonical_fragment_of_canonical(c0);
        lemma_find_name_index_props(entries, cookie_name(c0));
        let idx = find_name_index(entries, cookie_name(c0));
        if idx < entries.len() {
            assert(cookie_name(entries[idx]) == cookie_name(c0));
            assert(false);
        }
        assert(CookieJar::add_spec(entries, c0) == entries.push(c0));
        let rest = cookies.drop_first();
        assert forall|k: int| 0 <= k < rest.len() implies is_canonical_entry(
            #[trigger] rest[k],
        ) by {
            assert(rest[k] == cookies[k + 1]);
        }
        assert forall|k1: int, k2: int| 0 <= k1 < k2 < rest.len() implies cookie_name(
            #[trigger] rest[k1],
        ) != cookie_name(#[trigger] rest[k2]) by {
            assert(rest[k1] == cookies[k1 + 1]);
            assert(rest[k2] == cookies[k2 + 1]);
        }
        assert forall|i: int, j: int|
            0 <= i < entries.push(c0).len() && 0 <= j < rest.len() implies cookie_name(
            #[trigger] entries.push(c0)[i],
        ) != cookie_name(#[trigger] rest[j]) by {
            assert(rest[j] == cookies[j + 1]);
            if i < entries.len() {
                assert(entries.push(c0)[i] == entries[i]);
            } else {
                assert(entries.push(c0)[i] == c0);
                assert(cookie_name(cookies[0]) != cookie_name(cookies[j + 1]));
            }
        }
        lemma_inject_disjoint_appends(entries.push(c0), rest);
        assert(entries.push(c0) + rest =~= entries + cookies);
    }
}

/// Saving and loading round-trips: a well-formed cookie list injected into a
/// fresh jar reproduces exactly that list, so every cookie present in a jar
/// before it is saved is present again after its durable form is loaded
/// into an empty jar.
pub proof fn lemma_save_load_round_trip(cookies: Seq<Seq<char>>)
    requires
        jar_wf(cookies),
    ensures
        CookieJar::inject_spec(Seq::<Seq<char>>::empty(), cookies) == cookies,
{
    lemma_inject_disjoint_appends(Seq::<Seq<char>>::empty(), cookies);
    assert(Seq::<Seq<char>>::empty() + cookies =~= cookies);
}

} // verus!
