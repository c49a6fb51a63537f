use vstd::prelude::*;

verus! {

/// The HTTP verb of a request.
#[derive(Clone, Copy, Debug, PartialEq, Eq, Structural)]
pub enum Method {
    Get,
    Post,
    Patch,
    Delete,
}

/// The name of an HTTP verb as it goes on the wire.
pub open spec fn method_name(m: Method) -> Seq<char> {
    match m {
        Method::Get => "GET"@,
        Method::Post => "POST"@,
        Method::Patch => "PATCH"@,
        Method::Delete => "DELETE"@,
    }
}

impl Method {
    pub fn as_str(&self) -> (r: &'static str)
        ensures
            r@ == method_name(*self),
    {
        match self {
            Method::Get => "GET",
            Method::Post => "POST",
            Method::Patch => "PATCH",
            Method::Delete => "DELETE",
        }
    }

    /// Whether a request with this verb carries the event payload as its body.
    pub fn sends_body(&self) -> (r: bool)
        ensures
            r <==> (*self == Method::Post || *self == Method::Patch),
    {
        match self {
            Method::Post | Method::Patch => true,
            _ => false,
        }
    }
}

/// No two entries share a key.
pub open spec fn keys_unique(s: Seq<(String, String)>) -> bool {
    forall|i: int, j: int|
        0 <= i < s.len() && 0 <= j < s.len() && #[trigger] s[i].0@ == #[trigger] s[j].0@ ==> i == j
}

/// Whether some entry has the key `k`.
pub open spec fn has_key(s: Seq<(String, String)>, k: Seq<char>) -> bool {
    exists|i: int| 0 <= i < s.len() && #[trigger] s[i].0@ == k
}

/// The map from key to value that a list of entries stands for.
pub open spec fn entries_map(s: Seq<(String, String)>) -> Map<Seq<char>, Seq<char>> {
    Map::new(
        |k: Seq<char>| has_key(s, k),
        |k: Seq<char>| s[choose|i: int| 0 <= i < s.len() && #[trigger] s[i].0@ == k].1@,
    )
}

proof fn lemma_entry_value(s: Seq<(String, String)>, i: int)
    requires
        keys_unique(s),
        0 <= i < s.len(),
    ensures
        entries_map(s).contains_key(s[i].0@),
        entries_map(s)[s[i].0@] == s[i].1@,
{
    let k = s[i].0@;
    assert(has_key(s, k));
    let j = choose|j: int| 0 <= j < s.len() && #[trigger] s[j].0@ == k;
    assert(s[j].0@ == s[i].0@);
}

/// The query parameters of a request, each key at most once. Setting a key that is
/// already present replaces its value.
pub struct QueryParams {
    entries: Vec<(String, String)>,
}

impl View for QueryParams {
    type V = Map<Seq<char>, Seq<char>>;

    closed spec fn view(&self) -> Map<Seq<char>, Seq<char>> {
        entries_map(self.entries@)
    }
}

impl QueryParams {
    #[verifier::type_invariant]
    spec fn unique(self) -> bool {
        keys_unique(self.entries@)
    }

    /// No parameters.
    pub fn new() -> (r: QueryParams)
        ensures
            r@ == Map::<Seq<char>, Seq<char>>::empty(),
    {
        let r = QueryParams { entries: Vec::new() };
        assert(r@ =~= Map::<Seq<char>, Seq<char>>::empty());
        r
    }

    /// These parameters with `key` set to `value`, replacing an earlier value of `key`.
    pub fn with(self, key: String, value: String) -> (r: QueryParams)
        ensures
            r@ == self@.insert(key@, value@),
    {
        proof {
            use_type_invariant(&self);
        }
        let QueryParams { mut entries } = self;
        let ghost s = entries@;
        let mut i: usize = 0;
        let mut found = false;
        while i < entries.len() && !found
            invariant
                entries@ == s,
                keys_unique(s),
                0 <= i <= s.len(),
                found ==> i < s.len() && s[i as int].0@ == key@,
                forall|j: int| 0 <= j < i && !found ==> #[trigger] s[j].0@ != key@,
            decreases s.len() - i + (if found { 0int } else { 1int }),
        {
            if entries[i].0 == key {
                found = true;
            } else {
                i = i + 1;
            }
        }
        if found {
            proof {
                lemma_set_replaces(s, i as int, key, value);
            }
            entries.set(i, (key, value));
        } else {
            proof {
                lemma_push_new_key(s, key, value);
            }
            entries.push((key, value));
        }
        QueryParams { entries }
    }

    /// The value of `key`, if it is set.
    pub fn get(&self, key: &str) -> (r: Option<&String>)
        ensures
            r is Some <==> self@.contains_key(key@),
            r matches Some(v) ==> v@ == self@[key@],
    {
        proof {
            use_type_invariant(self);
        }
        let wanted = String::from_str(key);
        let mut i: usize = 0;
        while i < self.entries.len()
            invariant
                wanted@ == key@,
                keys_unique(self.entries@),
                0 <= i <= self.entries@.len(),
                forall|j: int| 0 <= j < i ==> #[trigger] self.entries@[j].0@ != key@,
            decreases self.entries@.len() - i,
        {
            if self.entries[i].0 == wanted {
                proof {
                    lemma_entry_value(self.entries@, i as int);
                }
                return Some(&self.entries[i].1);
            }
            i = i + 1;
        }
        assert(!has_key(self.entries@, key@));
        None
    }

    /// The parameters as key and value pairs, each key once, in no promised order.
    pub fn pairs(&self) -> (r: &Vec<(String, String)>)
        ensures
            keys_unique(r@),
            entries_map(r@) == self@,
    {
        proof {
            use_type_invariant(self);
        }
        &self.entries
    }
}

proof fn lemma_set_replaces(s: Seq<(String, String)>, i: int, key: String, value: String)
    requires
        keys_unique(s),
        0 <= i < s.len(),
        s[i].0@ == key@,
    ensures
        keys_unique(s.update(i, (key, value))),
        entries_map(s.update(i, (key, value))) == entries_map(s).insert(key@, value@),
{
    let t = s.update(i, (key, value));
    assert(keys_unique(t)) by {
        assert forall|a: int, b: int|
            0 <= a < t.len() && 0 <= b < t.len() && #[trigger] t[a].0@ == #[trigger] t[b].0@
            implies a == b by {
            assert(t[a].0@ == s[a].0@);
            assert(t[b].0@ == s[b].0@);
        }
    }
    let m = entries_map(t);
    let n = entries_map(s).insert(key@, value@);
    assert forall|k: Seq<char>| #[trigger] m.contains_key(k) <==> n.contains_key(k) by {
        if m.contains_key(k) {
            let j = choose|j: int| 0 <= j < t.len() && #[trigger] t[j].0@ == k;
            if j != i {
                assert(s[j].0@ == k);
            }
        }
        if n.contains_key(k) && k != key@ {
            let j = choose|j: int| 0 <= j < s.len() && #[trigger] s[j].0@ == k;
            assert(t[j].0@ == k);
        }
        if k == key@ {
            assert(t[i].0@ == k);
        }
    }
    assert forall|k: Seq<char>| #[trigger] m.contains_key(k) implies m[k] == n[k] by {
        let j = choose|j: int| 0 <= j < t.len() && #[trigger] t[j].0@ == k;
        lemma_entry_value(t, j);
        if j != i {
            lemma_entry_value(s, j);
        }
    }
    assert(m =~= n);
}

proof fn lemma_push_new_key(s: Seq<(String, String)>, key: String, value: String)
    requires
        keys_unique(s),
        forall|j: int| 0 <= j < s.len() ==> #[trigger] s[j].0@ != key@,
    ensures
        keys_unique(s.push((key, value))),
        entries_map(s.push((key, value))) == entries_map(s).insert(key@, value@),
{
    let t = s.push((key, value));
    let i = s.len() as int;
    assert(keys_unique(t)) by {
        assert forall|a: int, b: int|
            0 <= a < t.len() && 0 <= b < t.len() && #[trigger] t[a].0@ == #[trigger] t[b].0@
            implies a == b by {
            if a < i {
                assert(t[a] == s[a]);
            }
            if b < i {
                assert(t[b] == s[b]);
            }
        }
    }
    let m = entries_map(t);
    let n = entries_map(s).insert(key@, value@);
    assert forall|k: Seq<char>| #[trigger] m.contains_key(k) <==> n.contains_key(k) by {
        if m.contains_key(k) {
            let j = choose|j: int| 0 <= j < t.len() && #[trigger] t[j].0@ == k;
            if j != i {
                assert(t[j] == s[j]);
            }
        }
        if n.contains_key(k) && k != key@ {
            let j = choose|j: int| 0 <= j < s.len() && #[trigger] s[j].0@ == k;
            assert(t[j] == s[j]);
        }
        if k == key@ {
            assert(t[i].0@ == k);
        }
    }
    assert forall|k: Seq<char>| #[trigger] m.contains_key(k) implies m[k] == n[k] by {
        let j = choose|j: int| 0 <= j < t.len() && #[trigger] t[j].0@ == k;
        lemma_entry_value(t, j);
        if j != i {
            assert(t[j] == s[j]);
            lemma_entry_value(s, j);
        }
    }
    assert(m =~= n);
}


/// What a request builder accumulates: the verb, the target URL and the query parameters.
pub struct RequestContext {
    pub method: Method,
    pub url: String,
    pub params: QueryParams,
}

/// `new` is `old` with query parameter `key` set to `value`, and nothing else changed.
pub open spec fn param_set(new: RequestContext, old: RequestContext, key: Seq<char>, value: Seq<char>) -> bool {
    &&& new.method == old.method
    &&& new.url == old.url
    &&& new.params@ == old.params@.insert(key, value)
}

/// Setting one query parameter twice leaves only the second value in effect: the result
/// is the first context with the parameter set once, to the second value.
pub proof fn lemma_param_last_wins(
    c0: RequestContext,
    c1: RequestContext,
    c2: RequestContext,
    key: Seq<char>,
    first: Seq<char>,
    second: Seq<char>,
)
    requires
        param_set(c1, c0, key, first),
        param_set(c2, c1, key, second),
    ensures
        param_set(c2, c0, key, second),
{
    assert(c0.params@.insert(key, first).insert(key, second) =~= c0.params@.insert(key, second));
}

impl RequestContext {
    /// Sets query parameter `key` to `value`, replacing an earlier value of it.
    pub fn with_param(self, key: &str, value: String) -> (r: RequestContext)
        ensures
            param_set(r, self, key@, value@),
    {
        let RequestContext { method, url, params } = self;
        RequestContext { method, url, params: params.with(String::from_str(key), value) }
    }
}

} // verus!
