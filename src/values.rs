//! The bounded, duplicate-free, insertion-ordered collections that a
//! project owns: its technologies and its links.

use vstd::prelude::*;
use std::collections::hash_map::RandomState;
use indexmap::{IndexMap, IndexSet};
use crate::errors::{fails_with, DomainError, RuleViolation};
use crate::indexed::{
    has_key, map_entries, seq_insert, set_entries, string_set_clone, string_set_get_index,
    string_set_insert, string_set_len, string_set_new, string_set_shift_remove, url_map_clone, url_map_contains_key,
    url_map_get_index, url_map_insert, url_map_len, url_map_new, url_map_shift_remove,
};
use crate::text::{chars_of, contains_chars, contains_seq, starts_with, starts_with_chars, trim_chars, trimmed};
use crate::types::{ProjectUrl, UrlType};

verus! {

/// Most technologies a project may list.
pub const MAX_TECHNOLOGIES: usize = 20;

/// Most links a project may hold.
pub const MAX_URLS: usize = 10;

/// The distinct strings of `s`, each where it first occurs.
pub open spec fn distinct_in_order(s: Seq<Seq<char>>) -> Seq<Seq<char>>
    decreases s.len(),
{
    if s.len() == 0 {
        Seq::empty()
    } else {
        seq_insert(distinct_in_order(s.drop_last()), s.last())
    }
}

/// `s` without the string `x`, the others in their order.
pub open spec fn seq_without(s: Seq<Seq<char>>, x: Seq<char>) -> Seq<Seq<char>> {
    if s.contains(x) {
        s.remove(s.index_of(x))
    } else {
        s
    }
}

/// The views of a list of strings.
pub open spec fn string_views(v: Seq<String>) -> Seq<Seq<char>> {
    v.map_values(|t: String| t@)
}

proof fn lemma_insert_keeps_distinct(s: Seq<Seq<char>>, x: Seq<char>)
    requires
        s.no_duplicates(),
    ensures
        seq_insert(s, x).no_duplicates(),
{
    if !s.contains(x) {
        let t = s.push(x);
        assert forall|i: int, j: int| 0 <= i < t.len() && 0 <= j < t.len() && i != j implies t[i] != t[j] by {
            if i == s.len() as int {
                assert(s[j] == t[j]);
            } else if j == s.len() as int {
                assert(s[i] == t[i]);
            }
        }
    }
}

proof fn lemma_remove_keeps_distinct<A>(s: Seq<A>, i: int)
    requires
        s.no_duplicates(),
        0 <= i < s.len(),
    ensures
        s.remove(i).no_duplicates(),
        s.remove(i).len() == s.len() - 1,
{
    let t = s.remove(i);
    assert forall|a: int, b: int| 0 <= a < t.len() && 0 <= b < t.len() && a != b implies t[a] != t[b] by {
        let ia = if a < i { a } else { a + 1 };
        let ib = if b < i { b } else { b + 1 };
        assert(t[a] == s[ia] && t[b] == s[ib]);
    }
}

/// An ordered set of technology names, at most 20, without repeats.
#[derive(Debug)]
pub struct UniqueTechnologies {
    set: IndexSet<String, RandomState>,
}

impl View for UniqueTechnologies {
    type V = Seq<Seq<char>>;

    closed spec fn view(&self) -> Seq<Seq<char>> {
        set_entries(self.set)
    }
}

impl Clone for UniqueTechnologies {
    fn clone(&self) -> (r: UniqueTechnologies)
        ensures
            r@ == self@,
    {
        UniqueTechnologies { set: string_set_clone(&self.set) }
    }
}

impl UniqueTechnologies {
    /// The names are distinct and at most 20.
    pub open spec fn wf(&self) -> bool {
        self@.no_duplicates() && self@.len() <= 20
    }

    /// An empty set.
    pub fn new() -> (r: UniqueTechnologies)
        ensures
            r.wf(),
            r@ == Seq::<Seq<char>>::empty(),
    {
        UniqueTechnologies { set: string_set_new() }
    }

    /// The distinct names of `techs` in order of first occurrence; fails
    /// when they are more than 20.
    pub fn from_vec(techs: Vec<String>) -> (r: Result<UniqueTechnologies, DomainError>)
        ensures
            distinct_in_order(string_views(techs@)).len() <= 20 ==> (r matches Ok(t) && t.wf() && t@
                == distinct_in_order(string_views(techs@))),
            distinct_in_order(string_views(techs@)).len() > 20 ==> fails_with(
                r,
                RuleViolation::TooManyTechnologies,
            ),
    {
        let ghost views = string_views(techs@);
        let mut set = string_set_new();
        let mut i: usize = 0;
        while i < techs.len()
            invariant
                i <= techs@.len(),
                views == string_views(techs@),
                set_entries(set) == distinct_in_order(views.take(i as int)),
                set_entries(set).no_duplicates(),
            decreases techs@.len() - i,
        {
            let t = techs[i].clone();
            proof {
                lemma_insert_keeps_distinct(set_entries(set), t@);
                assert(views.take(i + 1).drop_last() =~= views.take(i as int));
            }
            string_set_insert(&mut set, t);
            i = i + 1;
        }
        assert(views.take(i as int) =~= views);
        if string_set_len(&set) > MAX_TECHNOLOGIES {
            return Err(DomainError::BusinessRule(RuleViolation::TooManyTechnologies));
        }
        Ok(UniqueTechnologies { set })
    }

    /// Appends `tech` unless it is there already; fails, changing nothing,
    /// when the set holds 20 names.
    pub fn add(&mut self, tech: String) -> (r: Result<(), DomainError>)
        requires
            old(self).wf(),
        ensures
            final(self).wf(),
            old(self)@.len() >= 20 ==> fails_with(r, RuleViolation::TechnologyLimitReached)
                && final(self)@ == old(self)@,
            old(self)@.len() < 20 ==> r is Ok && final(self)@ == seq_insert(old(self)@, tech@),
    {
        if string_set_len(&self.set) >= MAX_TECHNOLOGIES {
            return Err(DomainError::BusinessRule(RuleViolation::TechnologyLimitReached));
        }
        proof { lemma_insert_keeps_distinct(set_entries(self.set), tech@); }
        string_set_insert(&mut self.set, tech);
        Ok(())
    }

    /// The number of names.
    pub fn len(&self) -> (r: usize)
        ensures
            r == self@.len(),
    {
        string_set_len(&self.set)
    }

    /// Removes `tech` if present, the other names keeping their order;
    /// fails, changing nothing, when the set is empty.
    pub fn remove(&mut self, tech: &str) -> (r: Result<(), DomainError>)
        requires
            old(self).wf(),
        ensures
            final(self).wf(),
            old(self)@.len() == 0 ==> fails_with(r, RuleViolation::NoTechnologyToRemove)
                && final(self)@ == old(self)@,
            old(self)@.len() > 0 ==> r is Ok && final(self)@ == seq_without(old(self)@, tech@),
    {
        if string_set_len(&self.set) == 0 {
            return Err(DomainError::BusinessRule(RuleViolation::NoTechnologyToRemove));
        }
        let ghost before = set_entries(self.set);
        let removed = string_set_shift_remove(&mut self.set, tech);
        proof {
            if removed {
                let i = choose|i: int|
                    0 <= i < before.len() && before[i] == tech@
                        && set_entries(self.set) == before.remove(i);
                let j = before.index_of(tech@);
                assert(before[j] == tech@);
                assert(i == j);
                lemma_remove_keeps_distinct(before, i);
            }
        }
        Ok(())
    }

    /// The names, in order, borrowed.
    pub fn as_slice(&self) -> (r: Vec<&str>)
        ensures
            r@.len() == self@.len(),
            forall|i: int| 0 <= i < r@.len() ==> (#[trigger] r@[i])@ == self@[i],
    {
        let n = string_set_len(&self.set);
        let mut r: Vec<&str> = Vec::new();
        let mut i: usize = 0;
        while i < n
            invariant
                i <= n == self@.len(),
                r@.len() == i,
                forall|k: int| 0 <= k < i ==> (#[trigger] r@[k])@ == self@[k],
            decreases n - i,
        {
            let t = string_set_get_index(&self.set, i).unwrap();
            r.push(t.as_str());
            i = i + 1;
        }
        r
    }

    /// The names, in order, borrowed.
    pub fn iter(&self) -> (r: Vec<&String>)
        ensures
            r@.len() == self@.len(),
            forall|i: int| 0 <= i < r@.len() ==> (#[trigger] r@[i])@ == self@[i],
    {
        let n = string_set_len(&self.set);
        let mut r: Vec<&String> = Vec::new();
        let mut i: usize = 0;
        while i < n
            invariant
                i <= n == self@.len(),
                r@.len() == i,
                forall|k: int| 0 <= k < i ==> (#[trigger] r@[k])@ == self@[k],
            decreases n - i,
        {
            r.push(string_set_get_index(&self.set, i).unwrap());
            i = i + 1;
        }
        r
    }

    /// The names, in order, copied.
    pub fn as_vec(&self) -> (r: Vec<String>)
        ensures
            string_views(r@) == self@,
    {
        let n = string_set_len(&self.set);
        let mut r: Vec<String> = Vec::new();
        let mut i: usize = 0;
        while i < n
            invariant
                i <= n == self@.len(),
                string_views(r@) == self@.take(i as int),
            decreases n - i,
        {
            let c = string_set_get_index(&self.set, i).unwrap().clone();
            let ghost prev = r@;
            r.push(c);
            proof {
                assert(string_views(r@) =~= string_views(prev).push(c@));
                assert(self@.take(i + 1) =~= self@.take(i as int).push(self@[i as int]));
            }
            i = i + 1;
        }
        assert(self@.take(n as int) =~= self@);
        r
    }
}

/// Adding the same name twice to an empty set leaves one name.
pub proof fn lemma_same_technology_twice(x: Seq<char>)
    ensures
        seq_insert(seq_insert(Seq::empty(), x), x).len() == 1,
{
    assert(seq_insert(Seq::empty(), x) =~= seq![x]);
    assert(seq![x][0] == x);
}


/// Some link of `s` has the address `u`.
pub open spec fn has_url(s: Seq<ProjectUrl>, u: Seq<char>) -> bool {
    exists|i: int| 0 <= i < s.len() && (#[trigger] s[i]).spec_url() == u
}

/// `s` with `x` appended, unless a link with its address is there already.
pub open spec fn url_insert(s: Seq<ProjectUrl>, x: ProjectUrl) -> Seq<ProjectUrl> {
    if has_url(s, x.spec_url()) {
        s
    } else {
        s.push(x)
    }
}

/// A position of a link of `s` with address `u`.
pub open spec fn url_position(s: Seq<ProjectUrl>, u: Seq<char>) -> int {
    choose|i: int| 0 <= i < s.len() && (#[trigger] s[i]).spec_url() == u
}

/// `s` without the link with address `u`, the others in their order.
pub open spec fn url_without(s: Seq<ProjectUrl>, u: Seq<char>) -> Seq<ProjectUrl> {
    if has_url(s, u) {
        s.remove(url_position(s, u))
    } else {
        s
    }
}

/// The links of `s` with distinct addresses, each where its address first occurs.
pub open spec fn distinct_urls(s: Seq<ProjectUrl>) -> Seq<ProjectUrl>
    decreases s.len(),
{
    if s.len() == 0 {
        Seq::empty()
    } else {
        url_insert(distinct_urls(s.drop_last()), s.last())
    }
}

/// No two links of `s` share an address.
pub open spec fn urls_distinct(s: Seq<ProjectUrl>) -> bool {
    forall|i: int, j: int|
        0 <= i < s.len() && 0 <= j < s.len() && i != j ==> (#[trigger] s[i]).spec_url() != (#[trigger] s[j]).spec_url()
}

/// What is wrong with a single link, if anything: a blank address; a
/// GitHub address without "github.com"; a live demo address that does
/// not start with "http".
pub open spec fn link_problem(u: ProjectUrl) -> Option<RuleViolation> {
    if trimmed(u.spec_url()).len() == 0 {
        Some(RuleViolation::EmptyUrl)
    } else if u.spec_url_type() is GitHub && !contains_seq(u.spec_url(), "github.com"@) {
        Some(RuleViolation::GitHubUrlWithoutHost)
    } else if u.spec_url_type() is LiveDemo && !starts_with(u.spec_url(), "http"@) {
        Some(RuleViolation::LiveDemoNotHttp)
    } else {
        None
    }
}

/// The problem of the first faulty link of `s`, in order.
pub open spec fn first_link_problem(s: Seq<ProjectUrl>) -> Option<RuleViolation>
    decreases s.len(),
{
    if s.len() == 0 {
        None
    } else {
        match link_problem(s[0]) {
            Some(v) => Some(v),
            None => first_link_problem(s.drop_first()),
        }
    }
}

/// The links of `s` of kind `k`, in order.
pub open spec fn urls_of_kind(s: Seq<ProjectUrl>, k: UrlType) -> Seq<ProjectUrl>
    decreases s.len(),
{
    if s.len() == 0 {
        Seq::empty()
    } else if s.last().spec_url_type().same_kind(k) {
        urls_of_kind(s.drop_last(), k).push(s.last())
    } else {
        urls_of_kind(s.drop_last(), k)
    }
}

/// What is wrong with a single link, if anything.
pub fn check_link(u: &ProjectUrl) -> (r: Option<RuleViolation>)
    ensures
        r == link_problem(*u),
{
    let url = chars_of(u.url());
    if trim_chars(&url).len() == 0 {
        return Some(RuleViolation::EmptyUrl);
    }
    match u.url_type() {
        UrlType::GitHub => {
            if !contains_chars(&url, &chars_of("github.com")) {
                return Some(RuleViolation::GitHubUrlWithoutHost);
            }
        },
        UrlType::LiveDemo => {
            if !starts_with_chars(&url, &chars_of("http")) {
                return Some(RuleViolation::LiveDemoNotHttp);
            }
        },
        _ => {},
    }
    None
}

/// The keys of map entries, in order.
pub open spec fn entry_keys(e: Seq<(Seq<char>, ProjectUrl)>) -> Seq<Seq<char>> {
    e.map_values(|p: (Seq<char>, ProjectUrl)| p.0)
}

/// The values of map entries, in order.
pub open spec fn entry_values(e: Seq<(Seq<char>, ProjectUrl)>) -> Seq<ProjectUrl> {
    e.map_values(|p: (Seq<char>, ProjectUrl)| p.1)
}

/// Each entry is keyed by its link's address, and keys do not repeat.
pub open spec fn entries_keyed(e: Seq<(Seq<char>, ProjectUrl)>) -> bool {
    &&& entry_keys(e).no_duplicates()
    &&& forall|i: int| 0 <= i < e.len() ==> (#[trigger] e[i]).0 == e[i].1.spec_url()
}

proof fn lemma_keyed_lookup(e: Seq<(Seq<char>, ProjectUrl)>, k: Seq<char>)
    requires
        entries_keyed(e),
    ensures
        has_key(e, k) == has_url(entry_values(e), k),
        urls_distinct(entry_values(e)),
{
    let v = entry_values(e);
    if has_key(e, k) {
        let i = choose|i: int| 0 <= i < e.len() && (#[trigger] e[i]).0 == k;
        assert(v[i].spec_url() == k);
    }
    if has_url(v, k) {
        let i = choose|i: int| 0 <= i < v.len() && (#[trigger] v[i]).spec_url() == k;
        assert(e[i].0 == k);
    }
    assert forall|i: int, j: int| 0 <= i < v.len() && 0 <= j < v.len() && i != j implies
        (#[trigger] v[i]).spec_url() != (#[trigger] v[j]).spec_url() by {
        assert(entry_keys(e)[i] == e[i].0 && entry_keys(e)[j] == e[j].0);
    }
}

proof fn lemma_keyed_push(e: Seq<(Seq<char>, ProjectUrl)>, x: ProjectUrl)
    requires
        entries_keyed(e),
        !has_key(e, x.spec_url()),
    ensures
        entries_keyed(e.push((x.spec_url(), x))),
        entry_values(e.push((x.spec_url(), x))) == entry_values(e).push(x),
{
    let f = e.push((x.spec_url(), x));
    assert(entry_keys(f) =~= entry_keys(e).push(x.spec_url()));
    assert(entry_values(f) =~= entry_values(e).push(x));
    assert(!entry_keys(e).contains(x.spec_url())) by {
        if entry_keys(e).contains(x.spec_url()) {
            let i = choose|i: int| 0 <= i < entry_keys(e).len() && entry_keys(e)[i] == x.spec_url();
            assert(e[i].0 == x.spec_url());
        }
    }
    assert forall|i: int, j: int| 0 <= i < entry_keys(f).len() && 0 <= j < entry_keys(f).len() && i != j
        implies entry_keys(f)[i] != entry_keys(f)[j] by {
        if i == e.len() as int {
            assert(entry_keys(e)[j] == entry_keys(f)[j]);
        } else if j == e.len() as int {
            assert(entry_keys(e)[i] == entry_keys(f)[i]);
        }
    }
}

proof fn lemma_keyed_remove(e: Seq<(Seq<char>, ProjectUrl)>, i: int)
    requires
        entries_keyed(e),
        0 <= i < e.len(),
    ensures
        entries_keyed(e.remove(i)),
        entry_values(e.remove(i)) == entry_values(e).remove(i),
        url_position(entry_values(e), e[i].0) == i,
{
    let f = e.remove(i);
    assert(entry_keys(f) =~= entry_keys(e).remove(i));
    assert(entry_values(f) =~= entry_values(e).remove(i));
    lemma_remove_keeps_distinct(entry_keys(e), i);
    assert forall|a: int| 0 <= a < f.len() implies (#[trigger] f[a]).0 == f[a].1.spec_url() by {
        if a < i {
            assert(f[a] == e[a]);
        } else {
            assert(f[a] == e[a + 1]);
        }
    }
    lemma_keyed_lookup(e, e[i].0);
    let v = entry_values(e);
    assert(v[i].spec_url() == e[i].0);
    let j = url_position(v, e[i].0);
    assert(v[j].spec_url() == e[i].0);
}

/// An ordered set of project links, at most 10, no two with one address.
#[derive(Debug)]
pub struct ProjectUrls {
    map: IndexMap<String, ProjectUrl, RandomState>,
}

impl View for ProjectUrls {
    type V = Seq<ProjectUrl>;

    closed spec fn view(&self) -> Seq<ProjectUrl> {
        entry_values(map_entries(self.map))
    }
}

impl Clone for ProjectUrls {
    fn clone(&self) -> (r: ProjectUrls)
        ensures
            r@ == self@,
            self.wf() ==> r.wf(),
    {
        ProjectUrls { map: url_map_clone(&self.map) }
    }
}

impl ProjectUrls {
    /// The links have distinct addresses and are at most 10.
    pub closed spec fn wf(&self) -> bool {
        entries_keyed(map_entries(self.map)) && map_entries(self.map).len() <= 10
    }

    /// Links of a well-formed set have distinct addresses and are at most 10.
    pub proof fn lemma_wf(&self)
        requires
            self.wf(),
        ensures
            urls_distinct(self@),
            self@.len() <= 10,
    {
        lemma_keyed_lookup(map_entries(self.map), Seq::empty());
    }

    /// An empty set.
    pub fn new() -> (r: ProjectUrls)
        ensures
            r.wf(),
            r@ == Seq::<ProjectUrl>::empty(),
    {
        let r = ProjectUrls { map: url_map_new() };
        assert(r@ =~= Seq::<ProjectUrl>::empty());
        r
    }

    fn insert_new(&mut self, url: &ProjectUrl)
        requires
            old(self).wf(),
            old(self)@.len() < 10,
        ensures
            final(self).wf(),
            final(self)@ == url_insert(old(self)@, *url),
    {
        let ghost e = map_entries(self.map);
        proof { lemma_keyed_lookup(e, url.spec_url()); }
        if !url_map_contains_key(&self.map, url.url()) {
            proof { lemma_keyed_push(e, *url); }
            url_map_insert(&mut self.map, url.url().to_string(), url.clone());
        }
    }

    /// The links of `urls` with distinct addresses, in order of first
    /// occurrence; fails when they are more than 10, or with the problem
    /// of the first faulty link among them.
    pub fn from_vec(urls: Vec<ProjectUrl>) -> (r: Result<ProjectUrls, DomainError>)
        ensures
            distinct_urls(urls@).len() > 10 ==> fails_with(r, RuleViolation::TooManyUrls),
            distinct_urls(urls@).len() <= 10 ==> match first_link_problem(distinct_urls(urls@)) {
                Some(v) => fails_with(r, v),
                None => r matches Ok(t) && t.wf() && t@ == distinct_urls(urls@),
            },
    {
        let mut map = url_map_new();
        let mut i: usize = 0;
        assert(entry_values(map_entries(map)) =~= Seq::<ProjectUrl>::empty());
        while i < urls.len()
            invariant
                i <= urls@.len(),
                entries_keyed(map_entries(map)),
                entry_values(map_entries(map)) == distinct_urls(urls@.take(i as int)),
            decreases urls@.len() - i,
        {
            let u = &urls[i];
            let ghost e = map_entries(map);
            proof {
                lemma_keyed_lookup(e, u.spec_url());
                assert(urls@.take(i + 1).drop_last() =~= urls@.take(i as int));
            }
            if !url_map_contains_key(&map, u.url()) {
                proof { lemma_keyed_push(e, *u); }
                url_map_insert(&mut map, u.url().to_string(), u.clone());
            }
            i = i + 1;
        }
        assert(urls@.take(i as int) =~= urls@);
        let n = url_map_len(&map);
        if n > MAX_URLS {
            return Err(DomainError::BusinessRule(RuleViolation::TooManyUrls));
        }
        let ghost d = entry_values(map_entries(map));
        let mut j: usize = 0;
        assert(d.subrange(0, n as int) =~= d);
        while j < n
            invariant
                j <= n == d.len(),
                n <= 10,
                d == entry_values(map_entries(map)),
                d == distinct_urls(urls@),
                first_link_problem(d) == first_link_problem(d.subrange(j as int, n as int)),
            decreases n - j,
        {
            let u = url_map_get_index(&map, j).unwrap();
            assert(*u == d[j as int]);
            assert(d.subrange(j as int, n as int)[0] == d[j as int]);
            match check_link(u) {
                Some(v) => {
                    return Err(DomainError::BusinessRule(v));
                },
                None => {},
            }
            assert(d.subrange(j as int, n as int).drop_first() =~= d.subrange(j + 1, n as int));
            j = j + 1;
        }
        Ok(ProjectUrls { map })
    }

    /// Appends `url` unless a link with its address is there already;
    /// fails, changing nothing, when the set holds 10 links.
    pub fn add(&mut self, url: ProjectUrl) -> (r: Result<(), DomainError>)
        requires
            old(self).wf(),
        ensures
            final(self).wf(),
            old(self)@.len() >= 10 ==> fails_with(r, RuleViolation::UrlLimitReached)
                && final(self)@ == old(self)@,
            old(self)@.len() < 10 ==> r is Ok && final(self)@ == url_insert(old(self)@, url),
    {
        if url_map_len(&self.map) >= MAX_URLS {
            return Err(DomainError::BusinessRule(RuleViolation::UrlLimitReached));
        }
        self.insert_new(&url);
        Ok(())
    }

    /// Removes the link with the address of `url`, if present, the other
    /// links keeping their order; fails, changing nothing, when the set is empty.
    pub fn remove(&mut self, url: ProjectUrl) -> (r: Result<(), DomainError>)
        requires
            old(self).wf(),
        ensures
            final(self).wf(),
            old(self)@.len() == 0 ==> fails_with(r, RuleViolation::NoUrlToRemove)
                && final(self)@ == old(self)@,
            old(self)@.len() > 0 ==> r is Ok && final(self)@ == url_without(old(self)@, url.spec_url()),
    {
        if url_map_len(&self.map) == 0 {
            return Err(DomainError::BusinessRule(RuleViolation::NoUrlToRemove));
        }
        let ghost e = map_entries(self.map);
        proof { lemma_keyed_lookup(e, url.spec_url()); }
        let removed = url_map_shift_remove(&mut self.map, url.url());
        proof {
            if removed is Some {
                let i = choose|i: int|
                    0 <= i < e.len() && (#[trigger] e[i]).0 == url.spec_url()
                        && removed == Some(e[i].1)
                        && map_entries(self.map) == e.remove(i);
                lemma_keyed_remove(e, i);
            }
        }
        Ok(())
    }

    /// The links, in order, borrowed.
    pub fn iter(&self) -> (r: Vec<&ProjectUrl>)
        ensures
            r@.len() == self@.len(),
            forall|i: int| 0 <= i < r@.len() ==> *(#[trigger] r@[i]) == self@[i],
    {
        let n = url_map_len(&self.map);
        let mut r: Vec<&ProjectUrl> = Vec::new();
        let mut i: usize = 0;
        while i < n
            invariant
                i <= n == self@.len(),
                r@.len() == i,
                forall|k: int| 0 <= k < i ==> *(#[trigger] r@[k]) == self@[k],
            decreases n - i,
        {
            r.push(url_map_get_index(&self.map, i).unwrap());
            i = i + 1;
        }
        r
    }

    /// The number of links.
    pub fn len(&self) -> (r: usize)
        ensures
            r == self@.len(),
    {
        url_map_len(&self.map)
    }

    /// Whether there are no links.
    pub fn is_empty(&self) -> (r: bool)
        ensures
            r == (self@.len() == 0),
    {
        url_map_len(&self.map) == 0
    }

    /// The links of kind `url_type`, in order.
    pub fn find_by_type(&self, url_type: UrlType) -> (r: Vec<&ProjectUrl>)
        ensures
            r@.len() == urls_of_kind(self@, url_type).len(),
            forall|i: int| 0 <= i < r@.len() ==> *(#[trigger] r@[i]) == urls_of_kind(self@, url_type)[i],
    {
        let n = url_map_len(&self.map);
        let mut r: Vec<&ProjectUrl> = Vec::new();
        let mut i: usize = 0;
        while i < n
            invariant
                i <= n == self@.len(),
                r@.len() == urls_of_kind(self@.take(i as int), url_type).len(),
                forall|k: int| 0 <= k < r@.len() ==> *(#[trigger] r@[k]) == urls_of_kind(self@.take(i as int), url_type)[k],
            decreases n - i,
        {
            let u = url_map_get_index(&self.map, i).unwrap();
            proof { assert(self@.take(i + 1).drop_last() =~= self@.take(i as int)); }
            if *u.url_type() == url_type {
                r.push(u);
            }
            i = i + 1;
        }
        assert(self@.take(n as int) =~= self@);
        r
    }
}

/// Two links with one address are one element: adding both to an empty
/// set leaves one link.
pub proof fn lemma_same_address_once(a: ProjectUrl, b: ProjectUrl)
    requires
        a.spec_url() == b.spec_url(),
    ensures
        url_insert(url_insert(Seq::empty(), a), b).len() == 1,
{
    let s = url_insert(Seq::empty(), a);
    assert(!has_url(Seq::<ProjectUrl>::empty(), a.spec_url()));
    assert(s =~= seq![a]);
    assert(s[0].spec_url() == b.spec_url());
}

} // verus!
