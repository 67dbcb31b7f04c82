use vstd::prelude::*;

use crate::destination::{debug_sink_name, sink_name};
use crate::utf16::{decode_utf16, utf16_of};

verus! {

/// The printer list shown to the operator: the installed printers in the
/// order the system reported them, then the debug sink.
pub open spec fn printer_list(installed: Seq<Seq<char>>) -> Seq<Seq<char>> {
    installed.push(sink_name())
}

/// Some text has exactly these UTF-16 units as its encoding.
pub open spec fn decodable(units: Seq<u16>) -> bool {
    exists|t: Seq<char>| #[trigger] utf16_of(t) == units
}

/// The name fields of the enumerated records that are present and valid
/// UTF-16, in record order.
pub open spec fn named_records(records: Seq<Option<Vec<u16>>>) -> Seq<Seq<u16>>
    decreases records.len(),
{
    if records.len() == 0 {
        Seq::empty()
    } else {
        let rest = named_records(records.drop_last());
        let last = records.last();
        if last is Some && decodable(last->0@) {
            rest.push(last->0@)
        } else {
            rest
        }
    }
}

/// Whatever the system reports, including nothing at all, the printer list
/// is non-empty and ends with the debug sink.
pub proof fn lemma_list_ends_with_sink(installed: Seq<Seq<char>>)
    ensures
        printer_list(installed).len() > 0,
        printer_list(installed).last() == sink_name(),
        printer_list(installed).drop_last() == installed,
{
    assert(printer_list(installed).drop_last() =~= installed);
}

/// Appends the debug sink to the names that the system reported.
pub fn get_printers(installed: Vec<String>) -> (r: Vec<String>)
    ensures
        r.deep_view() == printer_list(installed.deep_view()),
{
    let mut list = installed;
    list.push(debug_sink_name());
    assert(list.deep_view() =~= printer_list(installed.deep_view()));
    list
}

/// Decodes the printer-name field of each enumerated record, skipping
/// records whose name is absent or is not valid UTF-16.
pub fn decode_printer_names(records: &Vec<Option<Vec<u16>>>) -> (r: Vec<String>)
    ensures
        r@.len() == named_records(records@).len(),
        forall|k: int|
            0 <= k < r@.len() ==> utf16_of(#[trigger] r@[k]@) == named_records(records@)[k],
{
    let mut names: Vec<String> = Vec::new();
    let mut i: usize = 0;
    while i < records.len()
        invariant
            i <= records@.len(),
            names@.len() == named_records(records@.take(i as int)).len(),
            forall|k: int|
                0 <= k < names@.len() ==> utf16_of(#[trigger] names@[k]@) == named_records(
                    records@.take(i as int),
                )[k],
        decreases records@.len() - i,
    {
        assert(records@.take(i as int + 1).drop_last() =~= records@.take(i as int));
        match &records[i] {
            Some(units) => {
                match decode_utf16(units.as_slice()) {
                    Some(name) => {
                        names.push(name);
                    },
                    None => {},
                }
            },
            None => {},
        }
        i = i + 1;
    }
    assert(records@.take(records@.len() as int) =~= records@);
    names
}

} // verus!
