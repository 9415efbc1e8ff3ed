use vstd::prelude::*;
use crate::errors::BrokerError;

verus! {

/// The names collected from a directory listing: one per entry whose name
/// could be read as text, in the order the entries came, with unreadable
/// entries skipped. An empty listing yields an empty sequence, no error.
pub open spec fn listed_names(entries: Seq<Option<Seq<char>>>) -> Seq<Seq<char>>
    decreases entries.len(),
{
    if entries.len() == 0 {
        Seq::empty()
    } else {
        listed_names(entries.drop_last()) + (match entries.last() {
            Some(name) => seq![name],
            None => Seq::empty(),
        })
    }
}

/// Builds the listing from per-entry name lookups, skipping entries whose
/// names could not be read as text and keeping the order of the rest.
pub fn collect_entry_names(entries: Vec<Option<String>>) -> (r: Vec<String>)
    ensures
        r.deep_view() == listed_names(entries.deep_view()),
{
    let ghost dv = entries.deep_view();
    let mut results: Vec<String> = Vec::new();
    let mut i: usize = 0;
    proof {
        assert(results.deep_view() =~= listed_names(dv.take(0)));
    }
    while i < entries.len()
        invariant
            i <= entries@.len(),
            dv == entries.deep_view(),
            dv.len() == entries@.len(),
            results.deep_view() == listed_names(dv.take(i as int)),
        decreases entries@.len() - i,
    {
        let ghost prev = results.deep_view();
        match &entries[i] {
            Some(name) => {
                results.push(name.clone());
                proof {
                    assert(dv[i as int] == Some(name@));
                    assert(results.deep_view() =~= prev + seq![name@]);
                }
            },
            None => {
                proof {
                    assert(dv[i as int] is None);
                    assert(results.deep_view() =~= prev + Seq::<Seq<char>>::empty());
                }
            },
        }
        proof {
            assert(dv.take(i as int + 1).drop_last() =~= dv.take(i as int));
            assert(dv.take(i as int + 1).last() == dv[i as int]);
            assert(results.deep_view() =~= listed_names(dv.take(i as int + 1)));
        }
        i = i + 1;
    }
    proof {
        assert(dv.take(dv.len() as int) =~= dv);
    }
    results
}

/// The confirmation after a file write, echoing the path.
pub fn write_confirmation(path: &str) -> (r: String)
    ensures
        r@ == "File written: "@ + path@,
{
    String::from_str("File written: ").concat(path)
}

/// The error reported when a file could not be read.
pub fn read_failure(reason: String) -> (r: BrokerError)
    ensures
        (r matches BrokerError::IoError(m) && m@ == "Failed to read file: "@ + reason@),
{
    BrokerError::IoError(String::from_str("Failed to read file: ").concat(reason.as_str()))
}

/// The error reported when a file could not be written.
pub fn write_failure(reason: String) -> (r: BrokerError)
    ensures
        (r matches BrokerError::IoError(m) && m@ == "Failed to write file: "@ + reason@),
{
    BrokerError::IoError(String::from_str("Failed to write file: ").concat(reason.as_str()))
}

/// The error reported when a directory could not be listed.
pub fn list_failure(reason: String) -> (r: BrokerError)
    ensures
        (r matches BrokerError::IoError(m) && m@ == "Failed to read directory: "@ + reason@),
{
    BrokerError::IoError(String::from_str("Failed to read directory: ").concat(reason.as_str()))
}

} // verus!
