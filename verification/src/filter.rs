//! Which records are rendered, and as what.

use vstd::prelude::*;

use crate::options::Opt;
use crate::record::{Gsr, RepoState};
use crate::text::texts;

verus! {

/// The views of a sequence of records.
pub open spec fn states(records: Seq<Gsr>) -> Seq<RepoState> {
    records.map_values(|record: Gsr| record@)
}

/// Whether the options select a record for rendering: all records where all
/// are asked for; else those with local changes, those ahead of their
/// upstream where these are asked for, and those behind it where these are.
pub open spec fn selects(opt: Opt, record: RepoState) -> bool {
    ||| opt.all
    ||| record.has_local_changes
    ||| opt.ahead && record.ahead
    ||| opt.behind && record.behind
}

/// What is shown of a record that is rendered: its path, and below it the
/// status report where the options ask for that.
pub open spec fn rendering(opt: Opt, record: RepoState) -> Seq<char> {
    if opt.status {
        record.report()
    } else {
        record.path
    }
}

/// What is shown of a record, if anything.
pub open spec fn rendered(opt: Opt, record: RepoState) -> Option<Seq<char>> {
    if selects(opt, record) {
        Some(rendering(opt, record))
    } else {
        None
    }
}

/// What is shown of a sequence of records, in their order.
pub open spec fn reported(opt: Opt, records: Seq<RepoState>) -> Seq<Seq<char>> {
    records.filter_map(|record: RepoState| rendered(opt, record))
}

/// Whether a record is to be rendered.
pub fn selected(gsr: &Gsr, opt: &Opt) -> (wanted: bool)
    ensures
        wanted == selects(*opt, gsr@),
{
    if opt.all {
        true
    } else if gsr.has_local_changes {
        true
    } else if opt.ahead && gsr.ahead {
        true
    } else {
        opt.behind && gsr.behind
    }
}

/// The text that renders a record, without the line feed that ends it.
pub fn print_gsr(gsr: &Gsr, opt: &Opt) -> (text: String)
    ensures
        text@ == rendering(*opt, gsr@),
{
    if opt.status {
        gsr.print_status()
    } else {
        gsr.path.clone()
    }
}

/// The text that renders a record if the options select it.
pub fn render(gsr: &Gsr, opt: &Opt) -> (text: Option<String>)
    ensures
        match text {
            Some(text) => Some(text@),
            None => None,
        } == rendered(*opt, gsr@),
{
    if selected(gsr, opt) {
        Some(print_gsr(gsr, opt))
    } else {
        None
    }
}

/// The texts that render a sequence of records, in the order in which the
/// records came in.
pub fn report(records: &Vec<Gsr>, opt: &Opt) -> (shown: Vec<String>)
    ensures
        texts(shown@) == reported(*opt, states(records@)),
{
    let mut shown: Vec<String> = Vec::new();
    let mut at: usize = 0;
    while at < records.len()
        invariant
            at <= records.len(),
            texts(shown@) == reported(*opt, states(records@).take(at as int)),
        decreases records.len() - at,
    {
        proof {
            states(records@).lemma_filter_map_take_succ(
                |record: RepoState| rendered(*opt, record),
                at as int,
            );
        }
        let ghost before = shown@;
        match render(&records[at], opt) {
            Some(text) => {
                shown.push(text);
                assert(texts(shown@) =~= texts(before) + seq![text@]);
            },
            None => {},
        }
        at += 1;
    }
    assert(states(records@).take(at as int) =~= states(records@));
    shown
}

/// Where all records are asked for, every record is rendered exactly once,
/// in its place, whatever its flags.
pub proof fn lemma_all_renders_every_record(opt: Opt, records: Seq<RepoState>)
    requires
        opt.all,
    ensures
        reported(opt, records) == records.map_values(|record: RepoState| rendering(opt, record)),
    decreases records.len(),
{
    let shown = records.map_values(|record: RepoState| rendering(opt, record));
    if records.len() > 0 {
        let before = records.drop_last();
        lemma_all_renders_every_record(opt, before);
        assert(before.map_values(|record: RepoState| rendering(opt, record)) =~= shown.drop_last());
    }
    assert(reported(opt, records) =~= shown);
}

/// Where not all records are asked for, a record without local changes that
/// is neither ahead nor behind is not rendered, whatever else is asked for
/// and wherever it stands among other records: what is shown is what would
/// be shown without it.
pub proof fn lemma_clean_record_is_dropped(
    opt: Opt,
    record: RepoState,
    before: Seq<RepoState>,
    after: Seq<RepoState>,
)
    requires
        !opt.all,
        !record.has_local_changes,
        !record.ahead,
        !record.behind,
    ensures
        !selects(opt, record),
        rendered(opt, record) is None,
        reported(opt, before + seq![record] + after) == reported(opt, before + after),
    decreases after.len(),
{
    let with = before + seq![record] + after;
    let without = before + after;
    if after.len() == 0 {
        assert(with.drop_last() =~= before);
        assert(without =~= before);
    } else {
        lemma_clean_record_is_dropped(opt, record, before, after.drop_last());
        assert(with.drop_last() =~= before + seq![record] + after.drop_last());
        assert(without.drop_last() =~= before + after.drop_last());
    }
}

} // verus!
