//! Printer directory: read-only snapshots of the printers the OS spooler
//! reports, listed whole or filtered by name.
//!
//! Enumeration itself is an OS call made outside this crate; a snapshot of
//! its result is handed in here, and the listing and filtering rules over it
//! are verified.

use vstd::prelude::*;

verus! {

/// One installed printer, as the spooler reports it at query time.
#[derive(Clone, Debug)]
pub struct PrinterInfo {
    pub name: String,
    /// The status text the OS directory service reports.
    pub status: String,
    pub is_default: bool,
    pub port: String,
    pub driver: String,
}

/// The name-equality predicate `list_by_name` filters with: native
/// case-sensitivity, nothing normalized.
pub open spec fn name_matches(p: PrinterInfo, name: Seq<char>) -> bool {
    p.name@ == name
}

/// The sub-sequence of a snapshot whose printers bear exactly this name.
pub open spec fn spec_by_name(printers: Seq<PrinterInfo>, name: Seq<char>) -> Seq<PrinterInfo> {
    printers.filter(|p: PrinterInfo| name_matches(p, name))
}

/// A snapshot of the installed printers.
#[derive(Debug)]
pub struct PrinterDirectory {
    pub printers: Vec<PrinterInfo>,
}

impl PrinterDirectory {
    pub fn new() -> (r: PrinterDirectory)
        ensures
            r.printers@.len() == 0,
    {
        PrinterDirectory { printers: Vec::new() }
    }

    /// Every installed printer, in the order the spooler reported them;
    /// an empty directory yields an empty list, not an error.
    pub fn list_all(&self) -> (r: Vec<PrinterInfo>)
        ensures
            r@ == self.printers@,
    {
        let n = self.printers.len();
        let mut out: Vec<PrinterInfo> = Vec::new();
        let mut i: usize = 0;
        while i < n
            invariant
                n == self.printers@.len(),
                i <= n,
                out@ == self.printers@.take(i as int),
            decreases n - i,
        {
            out.push(clone_printer(&self.printers[i]));
            proof {
                assert(self.printers@.take(i + 1) == self.printers@.take(i as int).push(
                    self.printers@[i as int],
                ));
            }
            i = i + 1;
        }
        proof {
            assert(self.printers@.take(n as int) == self.printers@);
        }
        out
    }

    /// The printers whose name equals `name` exactly, in enumeration order.
    pub fn list_by_name(&self, name: &String) -> (r: Vec<PrinterInfo>)
        ensures
            r@ == spec_by_name(self.printers@, name@),
    {
        let n = self.printers.len();
        let mut out: Vec<PrinterInfo> = Vec::new();
        let mut i: usize = 0;
        while i < n
            invariant
                n == self.printers@.len(),
                i <= n,
                out@ == spec_by_name(self.printers@.take(i as int), name@),
            decreases n - i,
        {
            let ghost pre = self.printers@.take(i as int);
            if self.printers[i].name == *name {
                out.push(clone_printer(&self.printers[i]));
            }
            proof {
                reveal(Seq::filter);
                let t = self.printers@.take(i + 1);
                assert(t == pre.push(self.printers@[i as int]));
                assert(t.drop_last() == pre);
                assert(t.last() == self.printers@[i as int]);
                assert(out@ == spec_by_name(t, name@));
            }
            i = i + 1;
        }
        proof {
            assert(self.printers@.take(n as int) == self.printers@);
        }
        out
    }
}

/// A field-for-field copy; spelled out so the equality is proved rather than
/// taken from a derived `Clone`.
pub fn clone_printer(p: &PrinterInfo) -> (r: PrinterInfo)
    ensures
        r == *p,
{
    PrinterInfo {
        name: p.name.clone(),
        status: p.status.clone(),
        is_default: p.is_default,
        port: p.port.clone(),
        driver: p.driver.clone(),
    }
}

/// `list_by_name` returns a subset of `list_all`, filtered by name equality:
/// every returned printer occurs in the full listing and bears the queried
/// name, and every printer of the full listing bearing that name is returned.
pub proof fn lemma_list_by_name_subset_of_list_all(dir: PrinterDirectory, name: Seq<char>)
    ensures
        forall|i: int|
            0 <= i < spec_by_name(dir.printers@, name).len() ==> dir.printers@.contains(
                #[trigger] spec_by_name(dir.printers@, name)[i],
            ) && name_matches(spec_by_name(dir.printers@, name)[i], name),
        forall|j: int|
            0 <= j < dir.printers@.len() && name_matches(#[trigger] dir.printers@[j], name)
                ==> spec_by_name(dir.printers@, name).contains(dir.printers@[j]),
{
    let pred = |p: PrinterInfo| name_matches(p, name);
    let kept = dir.printers@.filter(pred);
    assert(kept == spec_by_name(dir.printers@, name));
    assert forall|i: int| 0 <= i < kept.len() implies dir.printers@.contains(kept[i])
        && name_matches(kept[i], name) by {
        dir.printers@.lemma_filter_pred(pred, i);
        assert(kept.contains(kept[i]));
        dir.printers@.lemma_filter_contains_rev(pred, kept[i]);
    }
    assert forall|j: int|
        0 <= j < dir.printers@.len() && name_matches(#[trigger] dir.printers@[j], name) implies kept.contains(
        dir.printers@[j],
    ) by {
        dir.printers@.lemma_filter_contains(pred, j);
    }
}

} // verus!
