//! Header rewriting on the way out and back. The header map is the one of
//! the HTTP stack; what the directive of a rule does to it is decided
//! there, and the order in which the rules are applied is decided here.

use vstd::prelude::*;

verus! {

/// The header map of `webparse`, carried through as it is.
#[verifier::external_type_specification]
#[verifier::external_body]
pub struct ExHeaderMap(webparse::HeaderMap);

/// The headers a map holds, in its order: name and value, as bytes.
pub uninterp spec fn header_entries(headers: webparse::HeaderMap) -> Seq<(Seq<u8>, Seq<u8>)>;

/// The values a map holds for substitution placeholders, by placeholder.
pub uninterp spec fn header_systems(headers: webparse::HeaderMap) -> Map<Seq<char>, Seq<char>>;

/// The headers of a response after one rewrite rule was applied to them, as
/// the HTTP stack does it.
pub uninterp spec fn rule_entries(
    entries: Seq<(Seq<u8>, Seq<u8>)>,
    systems: Map<Seq<char>, Seq<char>>,
    rule: Seq<Seq<char>>,
) -> Seq<(Seq<u8>, Seq<u8>)>;

/// The headers of a request after its `Host` header was set.
pub uninterp spec fn host_entries(entries: Seq<(Seq<u8>, Seq<u8>)>, host: Seq<char>) -> Seq<
    (Seq<u8>, Seq<u8>),
>;

/// A rule that leaves every response as it is: one without tokens, and one
/// that is marked for requests.
pub open spec fn skipped_for_response(rule: Seq<Seq<char>>) -> bool {
    rule.len() == 0 || rule[0] == "proxy"@
}

/// No rule of the list touches a response; so it is for a location without
/// rules.
pub open spec fn every_rule_skipped(rules: Seq<Seq<Seq<char>>>) -> bool {
    forall|i: int| 0 <= i < rules.len() ==> skipped_for_response(#[trigger] rules[i])
}

/// Calls `wenmeng::HeaderHelper::rewrite_response` with the one rule, on a
/// response that carries these headers. Trusted: the new headers are a
/// function of the old headers, the placeholder values and the rule; the
/// placeholder values stay; a rule without tokens, or whose first token is
/// `proxy`, changes nothing.
#[verifier::external_body]
fn apply_rule(headers: &mut webparse::HeaderMap, rule: &Vec<String>)
    ensures
        header_entries(*final(headers)) == rule_entries(
            header_entries(*old(headers)),
            header_systems(*old(headers)),
            rule.deep_view(),
        ),
        header_systems(*final(headers)) == header_systems(*old(headers)),
        skipped_for_response(rule.deep_view()) ==> header_entries(*final(headers))
            == header_entries(*old(headers)),
{
    let mut response = webparse::Response::new(());
    std::mem::swap(response.headers_mut(), headers);
    wenmeng::HeaderHelper::rewrite_response(&mut response, &vec![rule.clone()]);
    std::mem::swap(response.headers_mut(), headers);
}

/// Calls `webparse::HeaderMap::insert` with the name `Host`. Trusted: the
/// new headers are a function of the old headers and the host; the
/// placeholder values stay.
#[verifier::external_body]
fn insert_host(headers: &mut webparse::HeaderMap, host: String)
    ensures
        header_entries(*final(headers)) == host_entries(header_entries(*old(headers)), host@),
        header_systems(*final(headers)) == header_systems(*old(headers)),
{
    headers.insert(webparse::HeaderName::HOST, host);
}

/// The headers of a response after a list of rules was applied, the first
/// rule first, each to what the rules before it left.
pub open spec fn rewritten(
    entries: Seq<(Seq<u8>, Seq<u8>)>,
    systems: Map<Seq<char>, Seq<char>>,
    rules: Seq<Seq<Seq<char>>>,
) -> Seq<(Seq<u8>, Seq<u8>)>
    decreases rules.len(),
{
    if rules.len() == 0 {
        entries
    } else {
        rewritten(rule_entries(entries, systems, rules[0]), systems, rules.drop_first())
    }
}

/// Applies a location's rewrite rules, in configured order, to the headers
/// of a received response.
pub fn rewrite_response(headers: &mut webparse::HeaderMap, rules: &Vec<Vec<String>>)
    ensures
        header_entries(*final(headers)) == rewritten(
            header_entries(*old(headers)),
            header_systems(*old(headers)),
            rules.deep_view(),
        ),
        header_systems(*final(headers)) == header_systems(*old(headers)),
        every_rule_skipped(rules.deep_view()) ==> header_entries(*final(headers))
            == header_entries(*old(headers)),
{
    let n: usize = rules.len();
    let ghost all = rules.deep_view();
    let ghost systems = header_systems(*headers);
    let ghost before = header_entries(*headers);
    let mut i: usize = 0;
    assert(all.subrange(0, n as int) =~= all);
    while i < n
        invariant
            n == rules@.len(),
            all == rules.deep_view(),
            i <= n,
            header_systems(*headers) == systems,
            (forall|k: int| 0 <= k < i ==> skipped_for_response(#[trigger] all[k]))
                ==> header_entries(*headers) == before,
            rewritten(before, systems, all) == rewritten(
                header_entries(*headers),
                systems,
                all.subrange(i as int, n as int),
            ),
        decreases n - i,
    {
        let ghost rest = all.subrange(i as int, n as int);
        assert(rest[0] == rules@[i as int].deep_view());
        assert(rest.drop_first() =~= all.subrange(i + 1, n as int));
        apply_rule(headers, &rules[i]);
        i += 1;
    }
    assert(all.subrange(n as int, n as int).len() == 0);
}

/// Sets the `Host` header of an outbound request.
pub fn set_host(headers: &mut webparse::HeaderMap, host: String)
    ensures
        header_entries(*final(headers)) == host_entries(header_entries(*old(headers)), host@),
        header_systems(*final(headers)) == header_systems(*old(headers)),
{
    insert_host(headers, host);
}

/// Applying two lists of rules one after the other is applying them as one
/// list: rules take effect in their order, a later rule on what the earlier
/// ones left.
pub proof fn lemma_rewrite_in_order(
    entries: Seq<(Seq<u8>, Seq<u8>)>,
    systems: Map<Seq<char>, Seq<char>>,
    first: Seq<Seq<Seq<char>>>,
    second: Seq<Seq<Seq<char>>>,
)
    ensures
        rewritten(entries, systems, first + second) == rewritten(
            rewritten(entries, systems, first),
            systems,
            second,
        ),
    decreases first.len(),
{
    if first.len() == 0 {
        assert(first + second =~= second);
    } else {
        assert((first + second)[0] == first[0]);
        assert((first + second).drop_first() =~= first.drop_first() + second);
        lemma_rewrite_in_order(
            rule_entries(entries, systems, first[0]),
            systems,
            first.drop_first(),
            second,
        );
    }
}

} // verus!
