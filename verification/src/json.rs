//! Decoding of one inventory page: a JSON array of repository objects, of
//! which only the `name` and `ssh_url` string fields are consumed. The
//! JSON reading itself is delegated to serde_json behind one trusted
//! wrapper whose result is named; the acceptance rules — an empty array
//! terminates, an object missing either field is skipped without
//! affecting pagination — are the library's own and are verified.

use vstd::prelude::*;
use crate::inventory::RepoEntry;
use crate::pagination::PageOutcome;

verus! {

/// What serde_json reads from one page body: nothing if the body is not a
/// JSON array; otherwise, per array element in order, its `name` and
/// `ssh_url` string fields where both are present, and nothing for an
/// element missing either. The decoding is a function of the body alone.
pub uninterp spec fn page_fields_of(s: Seq<char>) -> Option<Seq<Option<(Seq<char>, Seq<char>)>>>;

/// The field sequences that a decoded page denotes.
pub open spec fn field_views(s: Seq<Option<(String, String)>>) -> Seq<
    Option<(Seq<char>, Seq<char>)>,
> {
    s.map_values(
        |e: Option<(String, String)>|
            match e {
                Option::Some(p) => Option::Some((p.0@, p.1@)),
                Option::None => Option::None,
            },
    )
}

/// The decoded page that an exec result denotes.
pub open spec fn decoded_view(r: Option<Vec<Option<(String, String)>>>) -> Option<
    Seq<Option<(Seq<char>, Seq<char>)>>,
> {
    match r {
        Option::Some(v) => Option::Some(field_views(v@)),
        Option::None => Option::None,
    }
}

/// Relies on serde_json: `from_str` parses the body to an arbitrary JSON
/// document (or fails), and Value's `as_array`, `get` and `as_str` read
/// the element vector of an array and the string fields of its elements.
/// All are functions of the body alone, so the result carries the name
/// `page_fields_of`: `None` for a body that is not a JSON array, else one
/// element per array member, in order — the `name`/`ssh_url` string-field
/// pair where both are present, `None` where either is missing.
#[verifier::external_body]
fn decode_page(body: &str) -> (r: Option<Vec<Option<(String, String)>>>)
    ensures
        decoded_view(r) == page_fields_of(body@),
{
    let doc: serde_json::Value = match serde_json::from_str(body) {
        Ok(v) => v,
        Err(_) => return None,
    };
    let arr = doc.as_array()?;
    Some(arr.iter().map(|o| {
        match (o.get("name").and_then(|f| f.as_str()), o.get("ssh_url").and_then(|f| f.as_str())) {
            (Some(n), Some(u)) => Some((n.to_string(), u.to_string())),
            _ => None,
        }
    }).collect())
}

/// The entries accepted from a decoded page: the elements carrying both
/// fields, in array order; the others are skipped.
pub open spec fn accepted_entries(fields: Seq<Option<(Seq<char>, Seq<char>)>>) -> Seq<
    (Seq<char>, Seq<char>),
>
    decreases fields.len(),
{
    if fields.len() == 0 {
        Seq::empty()
    } else {
        let rest = accepted_entries(fields.drop_first());
        match fields.first() {
            Option::Some(p) => seq![p] + rest,
            Option::None => rest,
        }
    }
}

/// The name/URL pairs that a sequence of entries denotes.
pub open spec fn entry_views(es: Seq<RepoEntry>) -> Seq<(Seq<char>, Seq<char>)> {
    es.map_values(|e: RepoEntry| (e.name@, e.ssh_url@))
}

/// What the decoded body says the page outcome must be: a body that is
/// not a JSON array is a retryable failure — never the terminating empty
/// page, and never a fatal one; an empty array is the last page; a
/// non-empty array yields exactly its accepted entries, in order.
pub open spec fn decodes_to(body: Seq<char>, r: PageOutcome) -> bool {
    &&& page_fields_of(body) is None ==> r is Retryable
    &&& page_fields_of(body) is Some && page_fields_of(body)->Some_0.len() == 0 ==> r is Last
    &&& page_fields_of(body) is Some && page_fields_of(body)->Some_0.len() > 0 ==> (r matches
        PageOutcome::Page(es) && entry_views(es@) == accepted_entries(
        page_fields_of(body)->Some_0,
    ))
}

/// Decodes one page body, applying the acceptance rules to what
/// serde_json read from it.
#[verifier::loop_isolation(false)]
pub fn parse_page(body: &str) -> (r: PageOutcome)
    ensures
        decodes_to(body@, r),
        !(r is Fatal),
{
    let decoded = match decode_page(body) {
        Some(v) => v,
        None => {
            return PageOutcome::Retryable;
        },
    };
    let ghost fields = field_views(decoded@);
    let n = decoded.len();
    if n == 0 {
        return PageOutcome::Last;
    }
    let mut entries: Vec<RepoEntry> = Vec::new();
    let mut i: usize = 0;
    proof {
        assert(fields.skip(0) =~= fields);
        assert(entry_views(entries@) =~= Seq::<(Seq<char>, Seq<char>)>::empty());
        assert(Seq::<(Seq<char>, Seq<char>)>::empty() + accepted_entries(fields)
            =~= accepted_entries(fields));
    }
    while i < n
        invariant
            i <= n,
            n == decoded@.len(),
            entry_views(entries@) + accepted_entries(fields.skip(i as int)) == accepted_entries(
                fields,
            ),
        decreases n - i,
    {
        proof {
            assert(fields.skip(i as int).first() == fields[i as int]);
            assert(fields.skip(i as int).drop_first() =~= fields.skip(i as int + 1));
        }
        match &decoded[i] {
            Some(p) => {
                let e = RepoEntry { name: p.0.clone(), ssh_url: p.1.clone() };
                let ghost before = entries@;
                entries.push(e);
                proof {
                    assert(fields[i as int] == Option::Some((p.0@, p.1@)));
                    assert(entry_views(entries@) =~= entry_views(before) + seq![(p.0@, p.1@)]);
                    assert(entry_views(before) + (seq![(p.0@, p.1@)] + accepted_entries(
                        fields.skip(i as int + 1),
                    )) =~= entry_views(entries@) + accepted_entries(fields.skip(i as int + 1)));
                }
            },
            None => {
                proof {
                    assert(fields[i as int] is None);
                }
            },
        }
        i += 1;
    }
    proof {
        assert(fields.skip(n as int) =~= Seq::<Option<(Seq<char>, Seq<char>)>>::empty());
        assert(entry_views(entries@) + accepted_entries(fields.skip(n as int)) =~= entry_views(
            entries@,
        ));
    }
    PageOutcome::Page(entries)
}

} // verus!
