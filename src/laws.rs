use vstd::prelude::*;

use crate::document::{
    lemma_record_content_change, lemma_record_in_gesture, push_entry, record, redo_step, undo_step,
    DocState, HistoryEntryModel, HistoryModel, HISTORY_LIMIT,
};
use crate::lifecycle::end_rename_effect;
use crate::sheet::{AnimationModel, SheetModel};
use crate::selection::SelectionModel;

verus! {

/// The history after recording `states` in order.
pub open spec fn record_all(h: HistoryModel, states: Seq<DocState>) -> HistoryModel
    decreases states.len(),
{
    if states.len() == 0 {
        h
    } else {
        record(record_all(h, states.drop_last()), states.last())
    }
}

/// The history after `n` undo steps.
pub open spec fn undo_n(h: HistoryModel, n: nat) -> HistoryModel
    decreases n,
{
    if n == 0 {
        h
    } else {
        undo_step(undo_n(h, (n - 1) as nat))
    }
}

/// The history after `n` redo steps.
pub open spec fn redo_n(h: HistoryModel, n: nat) -> HistoryModel
    decreases n,
{
    if n == 0 {
        h
    } else {
        redo_step(redo_n(h, (n - 1) as nat))
    }
}

/// Each state changes the content of the one before it (the first, that of the current
/// entry of `h`), outside any gesture.
pub open spec fn content_changes(h: HistoryModel, states: Seq<DocState>) -> bool {
    &&& forall|i: int| 0 <= i < states.len() ==> (#[trigger] states[i]).transient is None
    &&& states.len() > 0 ==> states[0].sheet != h.current().sheet
    &&& forall|i: int| 1 <= i < states.len() ==> #[trigger] changes_content(states, i)
}

/// State `i` has other content than state `i - 1`.
pub open spec fn changes_content(states: Seq<DocState>, i: int) -> bool {
    states[i].sheet != states[i - 1].sheet
}

pub open spec fn sheets_of(entries: Seq<HistoryEntryModel>) -> Seq<SheetModel> {
    entries.map_values(|e: HistoryEntryModel| e.sheet)
}

pub open spec fn state_sheets(states: Seq<DocState>) -> Seq<SheetModel> {
    states.map_values(|s: DocState| s.sheet)
}

proof fn lemma_content_changes_prefix(h: HistoryModel, states: Seq<DocState>)
    requires
        content_changes(h, states),
        states.len() > 0,
    ensures
        content_changes(h, states.drop_last()),
{
    let p = states.drop_last();
    assert forall|i: int| 1 <= i < p.len() implies #[trigger] changes_content(p, i) by {
        assert(changes_content(states, i));
    }
    assert forall|i: int| 0 <= i < p.len() implies (#[trigger] p[i]).transient is None by {
        assert(states[i].transient is None);
    }
}

/// Recording content changes below the limit appends one entry for each after the cursor.
proof fn lemma_record_changes(h: HistoryModel, states: Seq<DocState>)
    requires
        h.wf(),
        h.cursor + 1 + states.len() <= HISTORY_LIMIT,
        content_changes(h, states),
    ensures
        record_all(h, states).wf(),
        record_all(h, states).cursor == h.cursor + states.len(),
        record_all(h, states).entries.len() == if states.len() == 0 {
            h.entries.len() as int
        } else {
            h.cursor + 1 + states.len()
        },
        record_all(h, states).entries.take(h.cursor + 1) == h.entries.take(h.cursor + 1),
        forall|i: int|
            0 <= i < states.len() ==> record_all(h, states).entries[h.cursor + 1 + i].sheet
                == (#[trigger] states[i]).sheet,
    decreases states.len(),
{
    if states.len() > 0 {
        let p = states.drop_last();
        lemma_content_changes_prefix(h, states);
        lemma_record_changes(h, p);
        let g = record_all(h, p);
        let x = states.last();
        if p.len() > 0 {
            assert(g.current().sheet == p[p.len() - 1].sheet);
            assert(changes_content(states, states.len() - 1));
        }
        assert(g.current().sheet != x.sheet);
        assert(x.transient is None) by {
            assert(states[states.len() - 1].transient is None);
        }
        lemma_record_content_change(g, x);
        let r = record(g, x);
        assert(r.entries.take(h.cursor + 1) =~= h.entries.take(h.cursor + 1)) by {
            assert(r.entries.take(h.cursor + 1) =~= g.entries.take(h.cursor + 1));
        }
        assert forall|i: int| 0 <= i < states.len() implies r.entries[h.cursor + 1 + i].sheet
            == (#[trigger] states[i]).sheet by {
            if i < p.len() {
                assert(p[i] == states[i]);
            }
        }
    }
}

proof fn lemma_undo_n(h: HistoryModel, n: nat)
    requires
        h.wf(),
        n <= h.cursor,
    ensures
        undo_n(h, n).entries == h.entries,
        undo_n(h, n).cursor == h.cursor - n,
        undo_n(h, n).wf(),
    decreases n,
{
    if n > 0 {
        lemma_undo_n(h, (n - 1) as nat);
    }
}

proof fn lemma_redo_n(h: HistoryModel, n: nat)
    requires
        h.wf(),
        h.cursor + n < h.entries.len(),
    ensures
        redo_n(h, n).entries == h.entries,
        redo_n(h, n).cursor == h.cursor + n,
        redo_n(h, n).wf(),
    decreases n,
{
    if n > 0 {
        lemma_redo_n(h, (n - 1) as nat);
    }
}

/// Recording content changes one after another, then undoing as many times, brings back
/// the content from before them; redoing as many times then brings back the last one.
/// This holds while history stays within its limit: past it, the oldest entries are gone.
pub proof fn law_undo_redo_round_trip(h: HistoryModel, states: Seq<DocState>)
    requires
        h.wf(),
        h.cursor + 1 + states.len() <= HISTORY_LIMIT,
        content_changes(h, states),
    ensures
        undo_n(record_all(h, states), states.len()).current().sheet == h.current().sheet,
        states.len() > 0 ==> redo_n(undo_n(record_all(h, states), states.len()), states.len()).current().sheet
            == states.last().sheet,
{
    let n = states.len();
    lemma_record_changes(h, states);
    let g = record_all(h, states);
    lemma_undo_n(g, n);
    let u = undo_n(g, n);
    assert(g.entries.take(h.cursor + 1)[h.cursor] == h.entries.take(h.cursor + 1)[h.cursor]);
    if n > 0 {
        lemma_redo_n(u, n);
        assert(g.entries[h.cursor + 1 + (n - 1)].sheet == states[n - 1].sheet);
    }
}

/// From the last entry, each content change adds an entry until history holds the limit;
/// after that the oldest entry goes for each new one, so the oldest kept is the content
/// `HISTORY_LIMIT - 1` changes before the last, and the content before them is gone.
pub proof fn law_history_cap(h: HistoryModel, states: Seq<DocState>)
    requires
        h.wf(),
        h.cursor == h.entries.len() - 1,
        content_changes(h, states),
    ensures
        record_all(h, states).wf(),
        record_all(h, states).cursor == record_all(h, states).entries.len() - 1,
        record_all(h, states).entries.len() == if h.entries.len() + states.len() <= HISTORY_LIMIT {
            h.entries.len() + states.len()
        } else {
            HISTORY_LIMIT as nat
        },
        sheets_of(record_all(h, states).entries) == (sheets_of(h.entries) + state_sheets(
            states,
        )).skip(h.entries.len() + states.len() - record_all(h, states).entries.len()),
    decreases states.len(),
{
    if states.len() > 0 {
        let p = states.drop_last();
        lemma_content_changes_prefix(h, states);
        law_history_cap(h, p);
        let g = record_all(h, p);
        let x = states.last();
        let all_p = sheets_of(h.entries) + state_sheets(p);
        let all = sheets_of(h.entries) + state_sheets(states);
        assert(all =~= all_p.push(x.sheet));
        if p.len() > 0 {
            assert(g.current().sheet == sheets_of(g.entries)[g.cursor]);
            assert(sheets_of(g.entries)[g.cursor] == all_p[all_p.len() - 1]);
            assert(all_p[all_p.len() - 1] == p[p.len() - 1].sheet);
            assert(changes_content(states, states.len() - 1));
        } else {
            assert(g == h);
        }
        assert(g.current().sheet != x.sheet);
        assert(x.transient is None) by {
            assert(states[states.len() - 1].transient is None);
        }
        lemma_record_content_change(g, x);
        let r = record(g, x);
        let e = HistoryEntryModel { sheet: x.sheet, view: x.view, version: crate::document::bump(g.next_version) };
        let kept = g.entries.take(g.cursor + 1).push(e);
        assert(g.entries.take(g.cursor + 1) =~= g.entries);
        let d = all_p.len() - g.entries.len();
        assert(all_p.len() == h.entries.len() + p.len());
        assert(sheets_of(g.entries) == all_p.skip(d));
        assert(sheets_of(kept) =~= sheets_of(g.entries).push(x.sheet));
        assert(sheets_of(kept) =~= all.skip(d));
        if kept.len() > HISTORY_LIMIT {
            assert(r.entries == kept.skip(1));
            assert(sheets_of(kept.skip(1)) =~= sheets_of(kept).skip(1));
            assert(sheets_of(r.entries) =~= all.skip(all.len() - HISTORY_LIMIT));
        } else {
            assert(sheets_of(r.entries) =~= all.skip(all.len() - r.entries.len()));
        }
    } else {
        assert(sheets_of(h.entries) + state_sheets(states) =~= sheets_of(h.entries));
    }
}

/// Two changes of the view alone, one after the other and outside any gesture, add at
/// most one entry to history when made from its last entry.
pub proof fn law_view_changes_merge(h: HistoryModel, s1: DocState, s2: DocState)
    requires
        h.wf(),
        h.cursor == h.entries.len() - 1,
        s1.transient is None,
        s2.transient is None,
        s1.sheet == h.current().sheet,
        s2.sheet == s1.sheet,
    ensures
        record(record(h, s1), s2).entries.len() <= h.entries.len() + 1,
{
    reveal(record);
    let g = record(h, s1);
    assert(h.entries.take(h.cursor + 1) =~= h.entries);
    if g.entries.len() > h.entries.len() || (g.entries.len() == HISTORY_LIMIT && g.entries
        != h.entries) {
        assert(g.cursor > 0);
        assert(g.entries[g.cursor - 1].sheet == g.current().sheet);
    }
}

/// While a gesture is in progress, recording leaves history alone; when the gesture ends
/// with its content changed, exactly one entry is added, holding the final content.
pub proof fn law_gesture_isolation(h: HistoryModel, during: Seq<DocState>, end: DocState)
    requires
        h.wf(),
        h.cursor == h.entries.len() - 1,
        h.entries.len() < HISTORY_LIMIT,
        forall|i: int| 0 <= i < during.len() ==> (#[trigger] during[i]).transient is Some,
        end.transient is None,
        end.sheet != h.current().sheet,
    ensures
        record_all(h, during) == h,
        record(record_all(h, during), end).entries.len() == h.entries.len() + 1,
        record(record_all(h, during), end).current().sheet == end.sheet,
    decreases during.len(),
{
    if during.len() > 0 {
        let p = during.drop_last();
        assert forall|i: int| 0 <= i < p.len() implies (#[trigger] p[i]).transient is Some by {
            assert(during[i].transient is Some);
        }
        law_gesture_isolation(h, p, end);
        assert(during[during.len() - 1].transient is Some);
        lemma_record_in_gesture(record_all(h, p), during.last());
    }
    assert(h.entries.take(h.cursor + 1) =~= h.entries);
    lemma_record_content_change(h, end);
}

/// A content change recorded outside a gesture gets a version above every version before
/// it, so a document saved at one of those versions (`disk`) is no longer saved; this holds
/// while the version counter is below its end.
pub proof fn law_content_change_unsaves(h: HistoryModel, s: DocState, disk: u64)
    requires
        h.wf(),
        h.next_version < u64::MAX,
        disk <= h.next_version,
        s.transient is None,
        s.sheet != h.current().sheet,
    ensures
        record(h, s).wf(),
        record(h, s).current().version != disk,
        record(h, s).current().version == h.next_version + 1,
{
    lemma_record_content_change(h, s);
    assert(h.entries.take(h.cursor + 1).push(record(h, s).entries.last()).last().version
        == h.next_version + 1);
}

/// A saved document's disk version is at most the version counter, so the law above applies
/// to it.
pub proof fn law_saved_version_is_given(h: HistoryModel)
    requires
        h.wf(),
    ensures
        h.current().version <= h.next_version,
{
}

/// Renaming an animation keeps animation names distinct: a rename that would take a name in
/// use is refused.
pub proof fn law_rename_keeps_animation_names_distinct(s: DocState)
    requires
        s.sheet.animation_names().no_duplicates(),
        end_rename_effect(s) is Ok,
        s.view.selection matches Some(SelectionModel::Animation(_)),
    ensures
        end_rename_effect(s)->Ok_0.sheet.animation_names().no_duplicates(),
{
    let sel = s.view.selection->Some_0->Animation_0;
    let new_name = s.transient->Some_0->Rename_0;
    let old_name = sel.last_touched;
    if old_name != new_name {
        let names = s.sheet.animation_names();
        crate::sheet::lemma_position_of_bounds(names, old_name);
        let i = s.sheet.animation_pos(old_name);
        let a = s.sheet.animation(old_name);
        let after = s.sheet.with_animation(old_name, AnimationModel { name: new_name, ..a });
        assert(after.animation_names() =~= names.update(i, new_name));
        assert forall|x: int, y: int|
            0 <= x < names.len() && 0 <= y < names.len() && x != y implies after.animation_names()[x]
            != after.animation_names()[y] by {
            if x == i {
                assert(names[y] != new_name);
            } else if y == i {
                assert(names[x] != new_name);
            }
        }
    }
}

} // verus!
