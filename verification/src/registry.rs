use vstd::prelude::*;
use vstd::string::StringExecFns;

verus! {

/// The views of a list of registered names, in registration order.
pub open spec fn name_views(names: Seq<String>) -> Seq<Seq<char>> {
    names.map_values(|n: String| n@)
}

/// The comma-separated enumeration of candidate names, built left to
/// right: a separator precedes a name whenever the text so far is
/// non-empty.
pub open spec fn comma_join(names: Seq<Seq<char>>) -> Seq<char>
    decreases names.len(),
{
    if names.len() == 0 {
        Seq::empty()
    } else {
        let prefix = comma_join(names.drop_last());
        if prefix.len() == 0 {
            prefix + names.last()
        } else {
            prefix + ", "@ + names.last()
        }
    }
}

/// The fatal startup message for a configured name that matches no
/// candidate: it names the target and enumerates every candidate name in
/// registration order, comma-separated.
pub open spec fn no_such_function_message(target: Seq<char>, names: Seq<Seq<char>>) -> Seq<char> {
    "No function named "@ + target + " available, available functions are: "@ + comma_join(names)
}

/// True when `needle` occurs contiguously somewhere in `haystack`.
pub open spec fn contains_seq(haystack: Seq<char>, needle: Seq<char>) -> bool {
    exists|k: int|
        0 <= k && k + needle.len() <= haystack.len() && #[trigger] haystack.subrange(
            k,
            k + needle.len(),
        ) == needle
}

/// The comma-separated list of the registered names, in registration
/// order.
pub fn available_functions(names: &Vec<String>) -> (r: String)
    ensures
        r@ == comma_join(name_views(names@)),
{
    let mut out = String::new();
    let mut i: usize = 0;
    while i < names.len()
        invariant
            i <= names@.len(),
            out@ == comma_join(name_views(names@.subrange(0, i as int))),
        decreases names@.len() - i,
    {
        proof {
            let s = name_views(names@.subrange(0, (i + 1) as int));
            assert(s.drop_last() =~= name_views(names@.subrange(0, i as int)));
            assert(s.last() == names@[i as int]@);
        }
        if !out.as_str().is_empty() {
            out.append(", ");
        }
        out.append(names[i].as_str());
        i = i + 1;
    }
    proof {
        assert(names@.subrange(0, names@.len() as int) =~= names@);
    }
    out
}

/// Resolves the configured handler name against the ordered candidate
/// names: the index of the first candidate whose name equals the target —
/// first registration wins when names repeat — or, when none matches, the
/// fatal startup message that enumerates every candidate.
pub fn select_function(names: &Vec<String>, target: &String) -> (r: Result<usize, String>)
    ensures
        match r {
            Ok(i) => i < names@.len() && names@[i as int]@ == target@ && (forall|j: int|
                0 <= j < i ==> names@[j]@ != target@),
            Err(m) => (forall|j: int| 0 <= j < names@.len() ==> names@[j]@ != target@)
                && m@ == no_such_function_message(target@, name_views(names@)),
        },
{
    let mut i: usize = 0;
    while i < names.len()
        invariant
            i <= names@.len(),
            forall|j: int| 0 <= j < i ==> names@[j]@ != target@,
        decreases names@.len() - i,
    {
        if names[i] == *target {
            return Ok(i);
        }
        i = i + 1;
    }
    let mut msg = "No function named ".to_owned();
    msg.append(target.as_str());
    msg.append(" available, available functions are: ");
    msg.append(available_functions(names).as_str());
    Err(msg)
}

proof fn lemma_contains_self(s: Seq<char>)
    ensures
        contains_seq(s, s),
{
    let k: int = 0;
    assert(s.subrange(k, k + s.len()) =~= s);
}

proof fn lemma_contains_prefix(a: Seq<char>, b: Seq<char>, needle: Seq<char>)
    requires
        contains_seq(a, needle),
    ensures
        contains_seq(a + b, needle),
{
    let k = choose|k: int|
        0 <= k && k + needle.len() <= a.len() && #[trigger] a.subrange(k, k + needle.len())
            == needle;
    assert((a + b).subrange(k, k + needle.len()) =~= a.subrange(k, k + needle.len()));
}

proof fn lemma_contains_suffix(a: Seq<char>, b: Seq<char>, needle: Seq<char>)
    requires
        contains_seq(b, needle),
    ensures
        contains_seq(a + b, needle),
{
    let k = choose|k: int|
        0 <= k && k + needle.len() <= b.len() && #[trigger] b.subrange(k, k + needle.len())
            == needle;
    let k2 = a.len() + k;
    assert((a + b).subrange(k2, k2 + needle.len()) =~= b.subrange(k, k + needle.len()));
}

/// Each registered name occurs in the comma-separated enumeration.
pub proof fn lemma_comma_join_lists_each(names: Seq<Seq<char>>, i: int)
    requires
        0 <= i < names.len(),
    ensures
        contains_seq(comma_join(names), names[i]),
    decreases names.len(),
{
    let prefix = comma_join(names.drop_last());
    if i == names.len() - 1 {
        lemma_contains_self(names[i]);
        if prefix.len() == 0 {
            lemma_contains_suffix(prefix, names[i], names[i]);
        } else {
            lemma_contains_suffix(prefix + ", "@, names[i], names[i]);
        }
    } else {
        lemma_comma_join_lists_each(names.drop_last(), i);
        if prefix.len() == 0 {
            lemma_contains_prefix(prefix, names.last(), names[i]);
        } else {
            lemma_contains_prefix(prefix, ", "@, names[i]);
            lemma_contains_prefix(prefix + ", "@, names.last(), names[i]);
        }
    }
}

/// When startup fails because the configured name matches no candidate,
/// the message reported to the operator lists every candidate name, in
/// registration order.
pub proof fn lemma_error_message_lists_candidates(target: Seq<char>, names: Seq<Seq<char>>)
    ensures
        forall|i: int|
            0 <= i < names.len() ==> contains_seq(
                no_such_function_message(target, names),
                names[i],
            ),
{
    let head = "No function named "@ + target + " available, available functions are: "@;
    assert forall|i: int|
        0 <= i < names.len() implies contains_seq(
        no_such_function_message(target, names),
        names[i],
    ) by {
        lemma_comma_join_lists_each(names, i);
        lemma_contains_suffix(head, comma_join(names), names[i]);
    }
}

} // verus!
