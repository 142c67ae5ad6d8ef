use vstd::prelude::*;
use vstd::string::StringExecFns;

verus! {

/// The JSON string literal that serde_json writes for a text: quoted, with
/// its special characters escaped.
pub uninterp spec fn json_string_of(s: Seq<char>) -> Seq<char>;

#[verifier::external_type_specification]
#[verifier::external_body]
pub struct ExJsonError(serde_json::Error);

/// Relies on `serde_json::to_string` applied to a `str`: it writes the quoted,
/// escaped string, a function of the characters alone. Its documentation
/// names two failures, a `Serialize` impl that fails and a map with
/// non-string keys; neither can occur for a `str`.
#[verifier::external_body]
fn serialize_str(s: &str) -> (r: Result<String, serde_json::Error>)
    ensures
        r is Ok,
        r.unwrap()@ == json_string_of(s@),
{
    serde_json::to_string(s)
}

/// A text as a JSON string literal.
pub fn json_string(s: &str) -> (r: String)
    ensures
        r@ == json_string_of(s@),
{
    match serialize_str(s) {
        Ok(t) => t,
        Err(_) => String::new(),
    }
}

/// One member of a JSON object: the key, a colon, the value, both strings.
pub open spec fn member_text(key: Seq<char>, value: Seq<char>) -> Seq<char> {
    json_string_of(key) + seq![':'] + json_string_of(value)
}

/// The members in their order, separated by commas.
pub open spec fn members_text(members: Seq<(Seq<char>, Seq<char>)>) -> Seq<char>
    decreases members.len(),
{
    if members.len() == 0 {
        Seq::empty()
    } else if members.len() == 1 {
        member_text(members[0].0, members[0].1)
    } else {
        members_text(members.drop_last()) + seq![','] + member_text(
            members.last().0,
            members.last().1,
        )
    }
}

/// A compact JSON object whose values are all strings.
pub open spec fn object_text(members: Seq<(Seq<char>, Seq<char>)>) -> Seq<char> {
    seq!['{'] + members_text(members) + seq!['}']
}

/// The members of a list of pairs, as character sequences.
pub open spec fn members_view(members: Seq<(&str, &str)>) -> Seq<(Seq<char>, Seq<char>)> {
    members.map_values(|m: (&str, &str)| (m.0@, m.1@))
}

/// Writes a JSON object with the given string members, in the given order.
pub fn json_object(members: &Vec<(&str, &str)>) -> (r: String)
    ensures
        r@ == object_text(members_view(members@)),
{
    let ghost ms = members_view(members@);
    let mut out = String::from_str("{");
    let mut i: usize = 0;
    proof {
        reveal_strlit("{");
        assert(ms.take(0) =~= Seq::<(Seq<char>, Seq<char>)>::empty());
    }
    while i < members.len()
        invariant
            ms == members_view(members@),
            i <= members@.len(),
            out@ == seq!['{'] + members_text(ms.take(i as int)),
        decreases members@.len() - i,
    {
        let (key, value) = members[i];
        if i > 0 {
            out.append(",");
        }
        let k = json_string(key);
        let v = json_string(value);
        out.append(k.as_str());
        out.append(":");
        out.append(v.as_str());
        proof {
            reveal_strlit(",");
            reveal_strlit(":");
            let next = ms.take(i + 1);
            assert(next.drop_last() =~= ms.take(i as int));
            assert(next.last() == (key@, value@));
        }
        i = i + 1;
    }
    out.append("}");
    proof {
        reveal_strlit("}");
        assert(ms.take(members@.len() as int) =~= ms);
    }
    out
}

} // verus!
