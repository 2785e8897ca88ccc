//! The cross-origin policy: any origin, any method, any header, on every
//! response.

use vstd::prelude::*;
use crate::message::{
    fields_of, first_value, lemma_first_value_of_append, Field, Header, Response,
};

verus! {

/// Header that names the origins allowed to read a response.
pub const ALLOW_ORIGIN: &'static str = "access-control-allow-origin";

/// Header that names the methods allowed across origins.
pub const ALLOW_METHODS: &'static str = "access-control-allow-methods";

/// Header that names the request headers allowed across origins.
pub const ALLOW_HEADERS: &'static str = "access-control-allow-headers";

/// The wildcard: whatever was asked for is allowed.
pub const ANY: &'static str = "*";

/// Whether `name` is one of the three headers the policy sets.
pub open spec fn is_cors_name(name: Seq<char>) -> bool {
    name == ALLOW_ORIGIN@ || name == ALLOW_METHODS@ || name == ALLOW_HEADERS@
}

/// The three fields the policy sets, in the order they are sent.
pub open spec fn cors_fields() -> Seq<Field> {
    seq![(ALLOW_ORIGIN@, ANY@), (ALLOW_METHODS@, ANY@), (ALLOW_HEADERS@, ANY@)]
}

/// The fields the policy leaves alone.
pub open spec fn is_kept() -> spec_fn(Field) -> bool {
    |field: Field| !is_cors_name(field.0)
}

/// The fields of a response once the policy has been applied: what the
/// handler set, less any cross-origin header of its own, then the policy's
/// three.
pub open spec fn with_cors_fields(fields: Seq<Field>) -> Seq<Field> {
    fields.filter(is_kept()) + cors_fields()
}

/// The three header names differ from one another.
pub proof fn lemma_cors_names_differ()
    ensures
        ALLOW_ORIGIN@ != ALLOW_METHODS@,
        ALLOW_ORIGIN@ != ALLOW_HEADERS@,
        ALLOW_METHODS@ != ALLOW_HEADERS@,
{
    reveal_strlit("access-control-allow-origin");
    reveal_strlit("access-control-allow-methods");
    reveal_strlit("access-control-allow-headers");
    assert(ALLOW_METHODS@[21] == 'm');
    assert(ALLOW_HEADERS@[21] == 'h');
}

/// Among the fields the policy leaves alone, none has one of its three
/// names, and every other name is found as before.
proof fn lemma_kept_fields(fields: Seq<Field>, name: Seq<char>)
    ensures
        first_value(fields.filter(is_kept()), name) == if is_cors_name(name) {
            None
        } else {
            first_value(fields, name)
        },
    decreases fields.len(),
{
    if fields.len() == 0 {
        reveal(Seq::filter);
    } else {
        let head = fields[0];
        let rest = fields.drop_first();
        assert(fields == seq![head] + rest);
        rest.lemma_filter_prepend(head, is_kept());
        lemma_kept_fields(rest, name);
        let kept_rest = rest.filter(is_kept());
        if is_kept()(head) {
            assert((seq![head] + kept_rest).drop_first() == kept_rest);
        } else {
            assert(Seq::<Field>::empty() + kept_rest == kept_rest);
        }
    }
}

/// Whatever the handler set, a response that went through the policy names
/// the wildcard for origins, for methods and for headers.
pub proof fn lemma_policy_allows_any(fields: Seq<Field>)
    ensures
        first_value(with_cors_fields(fields), ALLOW_ORIGIN@) == Some(ANY@),
        first_value(with_cors_fields(fields), ALLOW_METHODS@) == Some(ANY@),
        first_value(with_cors_fields(fields), ALLOW_HEADERS@) == Some(ANY@),
{
    lemma_cors_names_differ();
    let kept = fields.filter(is_kept());
    lemma_kept_fields(fields, ALLOW_ORIGIN@);
    lemma_kept_fields(fields, ALLOW_METHODS@);
    lemma_kept_fields(fields, ALLOW_HEADERS@);
    lemma_first_value_of_append(kept, cors_fields(), ALLOW_ORIGIN@);
    lemma_first_value_of_append(kept, cors_fields(), ALLOW_METHODS@);
    lemma_first_value_of_append(kept, cors_fields(), ALLOW_HEADERS@);
    reveal_with_fuel(first_value, 4);
}

/// The policy changes no header but its own three: any other name is looked
/// up with the same result before and after.
pub proof fn lemma_policy_keeps_other_fields(fields: Seq<Field>, name: Seq<char>)
    requires
        !is_cors_name(name),
    ensures
        first_value(with_cors_fields(fields), name) == first_value(fields, name),
{
    lemma_kept_fields(fields, name);
    lemma_first_value_of_append(fields.filter(is_kept()), cors_fields(), name);
    reveal_with_fuel(first_value, 4);
}

/// Filtering a list in which every field is kept leaves it as it is.
proof fn lemma_kept_stay(fields: Seq<Field>)
    requires
        forall|i: int| 0 <= i < fields.len() ==> !is_cors_name(#[trigger] fields[i].0),
    ensures
        fields.filter(is_kept()) == fields,
    decreases fields.len(),
{
    reveal(Seq::filter);
    if fields.len() > 0 {
        lemma_kept_stay(fields.drop_last());
        assert(is_kept()(fields.last()));
        assert(fields.drop_last().push(fields.last()) == fields);
    }
}

/// Filtering a list in which no field is kept leaves nothing.
proof fn lemma_dropped_go(fields: Seq<Field>)
    requires
        forall|i: int| 0 <= i < fields.len() ==> is_cors_name(#[trigger] fields[i].0),
    ensures
        fields.filter(is_kept()) == Seq::<Field>::empty(),
    decreases fields.len(),
{
    reveal(Seq::filter);
    if fields.len() > 0 {
        lemma_dropped_go(fields.drop_last());
        assert(!is_kept()(fields.last()));
    }
}

/// Applying the policy a second time changes nothing.
pub proof fn lemma_policy_is_idempotent(fields: Seq<Field>)
    ensures
        with_cors_fields(with_cors_fields(fields)) == with_cors_fields(fields),
{
    let kept = fields.filter(is_kept());
    assert forall|i: int| 0 <= i < kept.len() implies !is_cors_name(#[trigger] kept[i].0) by {
        fields.lemma_filter_pred(is_kept(), i);
    }
    lemma_kept_stay(kept);
    lemma_dropped_go(cors_fields());
    Seq::filter_distributes_over_add(kept, cors_fields(), is_kept());
    assert(kept + Seq::<Field>::empty() == kept);
}

/// Whether `header` is one of the three the policy sets.
pub fn is_cors_header(header: &Header) -> (yes: bool)
    ensures
        yes == is_cors_name(header@.0),
{
    header.name == String::from_str(ALLOW_ORIGIN) || header.name == String::from_str(ALLOW_METHODS)
        || header.name == String::from_str(ALLOW_HEADERS)
}

/// Applies the policy to a response: status and body stay, every
/// cross-origin header the handler may have set is dropped, and the three
/// wildcard headers are added at the end.
pub fn with_cors(response: Response) -> (out: Response)
    ensures
        out@.status == response@.status,
        out@.body == response@.body,
        out@.fields == with_cors_fields(response@.fields),
{
    let Response { status, headers, body } = response;
    let ghost fields = fields_of(headers@);
    let mut kept: Vec<Header> = Vec::new();
    let mut i: usize = 0;
    proof {
        reveal(Seq::filter);
        assert(fields.take(0).filter(is_kept()) == Seq::<Field>::empty());
    }
    while i < headers.len()
        invariant
            i <= headers.len(),
            fields == fields_of(headers@),
            fields_of(kept@) == fields.take(i as int).filter(is_kept()),
        decreases headers.len() - i,
    {
        proof {
            reveal(Seq::filter);
            assert(fields.take(i + 1).drop_last() == fields.take(i as int));
            assert(fields.take(i + 1).last() == headers@[i as int]@);
        }
        if !is_cors_header(&headers[i]) {
            let ghost before = kept@;
            kept.push(headers[i].duplicate());
            assert(fields_of(kept@) == fields_of(before).push(headers@[i as int]@));
        }
        i += 1;
    }
    assert(fields.take(headers.len() as int) == fields);
    let ghost inner = kept@;
    kept.push(Header::new(ALLOW_ORIGIN, ANY));
    kept.push(Header::new(ALLOW_METHODS, ANY));
    kept.push(Header::new(ALLOW_HEADERS, ANY));
    assert(fields_of(kept@) == fields_of(inner) + cors_fields());
    Response { status, headers: kept, body }
}

} // verus!
