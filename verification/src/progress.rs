//! The progress of an image pull, kept per layer.
//!
//! A pull reports events in any interleaving. Each event may name a layer
//! and carry a size pair, a status text, both or neither. The table holds
//! one entry per layer that is still open; an entry leaves the table when
//! its layer reports the completion marker, and the table is emptied when
//! the stream ends.

use vstd::prelude::*;
use crate::text::{ends_with, has_suffix, optional_view, same_text};

verus! {

/// What one pull event says about its layer.
#[derive(PartialEq, Eq, Debug)]
pub enum LayerUpdate {
    /// Neither a size pair nor a status text.
    Nothing,
    /// A size pair only.
    Size { current: u64, total: u64 },
    /// A status text only.
    Status { text: String },
    /// A size pair and a status text.
    SizeAndStatus { current: u64, total: u64, text: String },
}

/// One event of the pull stream.
#[derive(PartialEq, Eq, Debug)]
pub struct PullEvent {
    pub id: Option<String>,
    pub update: LayerUpdate,
}

/// The progress of one layer.
#[derive(PartialEq, Eq, Debug)]
pub struct LayerProgress {
    pub layer_id: String,
    pub current_bytes: u64,
    pub total_bytes: Option<u64>,
    pub status_text: String,
    pub completed: bool,
}

/// What an event did to the table.
#[derive(PartialEq, Eq, Debug)]
pub enum LayerChange {
    /// The event named no layer, or the tag `latest`: nothing changed.
    Ignored,
    /// The layer's entry now reads as given.
    Updated(LayerProgress),
    /// The layer is complete; its entry, as given, is no longer in the table.
    Finalized(LayerProgress),
}

/// The open layers of one pull.
#[derive(Debug)]
pub struct ProgressTable {
    layers: Vec<LayerProgress>,
}

/// The view of [`LayerProgress`]: the same value, with each text as its characters.
pub ghost struct LayerView {
    pub id: Seq<char>,
    pub current: u64,
    pub total: Option<u64>,
    pub status: Seq<char>,
    pub completed: bool,
}

/// The view of [`LayerUpdate`]: the same value, with each text as its characters.
pub ghost struct UpdateView {
    pub size: Option<(u64, u64)>,
    pub status: Option<Seq<char>>,
}

/// The view of [`PullEvent`]: the same value, with each text as its characters.
pub ghost struct EventView {
    pub id: Option<Seq<char>>,
    pub update: UpdateView,
}

/// The view of [`LayerChange`]: the same value, with each text as its characters.
pub ghost enum ChangeView {
    Ignored,
    Updated(LayerView),
    Finalized(LayerView),
}

impl View for LayerUpdate {
    type V = UpdateView;

    open spec fn view(&self) -> UpdateView {
        match *self {
            LayerUpdate::Nothing => UpdateView { size: None, status: None },
            LayerUpdate::Size { current, total } => UpdateView {
                size: Some((current, total)),
                status: None,
            },
            LayerUpdate::Status { text } => UpdateView { size: None, status: Some(text@) },
            LayerUpdate::SizeAndStatus { current, total, text } => UpdateView {
                size: Some((current, total)),
                status: Some(text@),
            },
        }
    }
}

impl View for PullEvent {
    type V = EventView;

    open spec fn view(&self) -> EventView {
        EventView {
            id: match self.id {
                Some(id) => Some(id@),
                None => None,
            },
            update: self.update@,
        }
    }
}

impl View for LayerProgress {
    type V = LayerView;

    open spec fn view(&self) -> LayerView {
        LayerView {
            id: self.layer_id@,
            current: self.current_bytes,
            total: self.total_bytes,
            status: self.status_text@,
            completed: self.completed,
        }
    }
}

impl View for LayerChange {
    type V = ChangeView;

    open spec fn view(&self) -> ChangeView {
        match *self {
            LayerChange::Ignored => ChangeView::Ignored,
            LayerChange::Updated(layer) => ChangeView::Updated(layer@),
            LayerChange::Finalized(layer) => ChangeView::Finalized(layer@),
        }
    }
}

/// The views of the entries, in order.
pub open spec fn layer_views(layers: Seq<LayerProgress>) -> Seq<LayerView> {
    Seq::new(layers.len(), |i: int| layers[i]@)
}

impl View for ProgressTable {
    type V = Seq<LayerView>;

    closed spec fn view(&self) -> Seq<LayerView> {
        layer_views(self.layers@)
    }
}

/// A size as the engine reports it, taken as a number of bytes: a negative
/// number is taken as the bit pattern that it is.
pub open spec fn size_of(n: i64) -> u64 {
    if n >= 0 {
        n as u64
    } else {
        (n + 0x1_0000_0000_0000_0000) as u64
    }
}

/// What an event with these fields says about its layer. The two numbers
/// count only where both are there.
pub open spec fn update_of(
    current: Option<i64>,
    total: Option<i64>,
    status: Option<Seq<char>>,
) -> UpdateView {
    UpdateView {
        size: if current is Some && total is Some {
            Some((size_of(current->0), size_of(total->0)))
        } else {
            None
        },
        status,
    }
}

/// The id of the tag alias, which is no layer.
pub open spec fn tag_alias() -> Seq<char> {
    "latest"@
}

/// The status text that closes a layer.
pub open spec fn completion_marker() -> Seq<char> {
    "Pull complete"@
}

/// The ending of a status text that says a stage of the layer is complete.
pub open spec fn stage_suffix() -> Seq<char> {
    " complete"@
}

/// Whether an event with this id is about a layer at all.
pub open spec fn is_tracked(id: Option<Seq<char>>) -> bool {
    id is Some && id->0 != tag_alias()
}

/// The entry of a layer of which nothing is known yet.
pub open spec fn fresh(id: Seq<char>) -> LayerView {
    LayerView { id, current: 0, total: None, status: Seq::empty(), completed: false }
}

/// The entry after the size pair of the update, if it has one.
pub open spec fn sized(e: LayerView, u: UpdateView) -> LayerView {
    match u.size {
        Some((current, total)) => LayerView { current, total: Some(total), ..e },
        None => e,
    }
}

/// Whether the update closes its layer.
pub open spec fn closes(u: UpdateView) -> bool {
    u.status == Some(completion_marker())
}

/// The entry after the status text of an update that does not close the
/// layer: a text that says a stage is complete moves the position to the
/// total, where the total is known; any other text becomes the status.
pub open spec fn noted(e: LayerView, u: UpdateView) -> LayerView {
    match u.status {
        None => e,
        Some(text) => if has_suffix(text, stage_suffix()) && e.total is Some {
            LayerView { current: e.total->0, ..e }
        } else {
            LayerView { status: text, ..e }
        },
    }
}

/// The index of the first entry with this id, or the length where there is
/// none.
pub open spec fn position(layers: Seq<LayerView>, id: Seq<char>) -> int
    decreases layers.len(),
{
    if layers.len() == 0 {
        0
    } else if layers[0].id == id {
        0
    } else {
        1 + position(layers.drop_first(), id)
    }
}

/// The entry that the event works on, after its size pair.
pub open spec fn target(layers: Seq<LayerView>, ev: EventView) -> LayerView
    recommends
        is_tracked(ev.id),
{
    let at = position(layers, ev.id->0);
    sized(
        if at < layers.len() {
            layers[at]
        } else {
            fresh(ev.id->0)
        },
        ev.update,
    )
}

/// The table after one event.
pub open spec fn step(layers: Seq<LayerView>, ev: EventView) -> Seq<LayerView> {
    if !is_tracked(ev.id) {
        layers
    } else {
        let at = position(layers, ev.id->0);
        if closes(ev.update) {
            if at < layers.len() {
                layers.remove(at)
            } else {
                layers
            }
        } else if at < layers.len() {
            layers.update(at, noted(target(layers, ev), ev.update))
        } else {
            layers.push(noted(target(layers, ev), ev.update))
        }
    }
}

/// What one event reports back.
pub open spec fn change(layers: Seq<LayerView>, ev: EventView) -> ChangeView {
    if !is_tracked(ev.id) {
        ChangeView::Ignored
    } else if closes(ev.update) {
        ChangeView::Finalized(LayerView { completed: true, ..target(layers, ev) })
    } else {
        ChangeView::Updated(noted(target(layers, ev), ev.update))
    }
}

/// The table after a sequence of events.
pub open spec fn run(layers: Seq<LayerView>, events: Seq<EventView>) -> Seq<LayerView>
    decreases events.len(),
{
    if events.len() == 0 {
        layers
    } else {
        step(run(layers, events.drop_last()), events.last())
    }
}

/// The entries as they are handed out when the stream ends: each marked
/// complete.
pub open spec fn resolved(layers: Seq<LayerView>) -> Seq<LayerView> {
    Seq::new(layers.len(), |i: int| LayerView { completed: true, ..layers[i] })
}

/// A table is well formed when no entry is the tag alias, no entry is
/// complete, and no id occurs twice.
pub open spec fn well_formed(layers: Seq<LayerView>) -> bool {
    &&& forall|i: int|
        0 <= i < layers.len() ==> (#[trigger] layers[i]).id != tag_alias() && !layers[i].completed
    &&& forall|i: int, j: int|
        0 <= i < j < layers.len() ==> (#[trigger] layers[i]).id != (#[trigger] layers[j]).id
}

/// Whether some entry has this id.
pub open spec fn tracks(layers: Seq<LayerView>, id: Seq<char>) -> bool {
    exists|i: int| 0 <= i < layers.len() && (#[trigger] layers[i]).id == id
}

/// `position` is the first index that holds the id, and the length exactly
/// when no index does.
pub proof fn lemma_position(layers: Seq<LayerView>, id: Seq<char>)
    ensures
        0 <= position(layers, id) <= layers.len(),
        position(layers, id) < layers.len() ==> layers[position(layers, id)].id == id,
        forall|i: int| 0 <= i < position(layers, id) ==> (#[trigger] layers[i]).id != id,
        position(layers, id) < layers.len() <==> tracks(layers, id),
    decreases layers.len(),
{
    if layers.len() == 0 {
    } else if layers[0].id == id {
    } else {
        let rest = layers.drop_first();
        lemma_position(rest, id);
        assert forall|i: int| 0 <= i < position(layers, id) implies (#[trigger] layers[i]).id
            != id by {
            if i > 0 {
                assert(layers[i] == rest[i - 1]);
            }
        }
        if tracks(layers, id) {
            let i = choose|i: int| 0 <= i < layers.len() && (#[trigger] layers[i]).id == id;
            assert(rest[i - 1].id == id);
        }
        if position(rest, id) < rest.len() {
            assert(layers[position(rest, id) + 1] == rest[position(rest, id)]);
        }
    }
}

/// One event keeps a well-formed table well formed. In particular an event
/// for the tag alias never makes an entry.
pub proof fn lemma_step_keeps_well_formed(layers: Seq<LayerView>, ev: EventView)
    requires
        well_formed(layers),
    ensures
        well_formed(step(layers, ev)),
        !tracks(step(layers, ev), tag_alias()),
        closes(ev.update) && is_tracked(ev.id) ==> !tracks(step(layers, ev), ev.id->0),
{
    let after = step(layers, ev);
    if is_tracked(ev.id) {
        let id = ev.id->0;
        let at = position(layers, id);
        lemma_position(layers, id);
        if closes(ev.update) {
            if tracks(after, id) {
                let k = choose|k: int| 0 <= k < after.len() && (#[trigger] after[k]).id == id;
                if at < layers.len() {
                    if k < at {
                        assert(after[k] == layers[k]);
                    } else {
                        assert(after[k] == layers[k + 1]);
                    }
                }
            }
            assert forall|i: int, j: int| 0 <= i < j < after.len() implies (#[trigger] after[i]).id
                != (#[trigger] after[j]).id by {
                let a = if i < at { i } else { i + 1 };
                let b = if j < at { j } else { j + 1 };
                if at < layers.len() {
                    assert(after[i] == layers[a] && after[j] == layers[b]);
                }
            }
            assert forall|i: int| 0 <= i < after.len() implies (#[trigger] after[i]).id
                != tag_alias() && !after[i].completed by {
                let a = if i < at { i } else { i + 1 };
                if at < layers.len() {
                    assert(after[i] == layers[a]);
                }
            }
        } else {
            let e = noted(target(layers, ev), ev.update);
            assert(e.id == id && !e.completed);
            assert forall|i: int, j: int| 0 <= i < j < after.len() implies (#[trigger] after[i]).id
                != (#[trigger] after[j]).id by {
                if i != at && j != at {
                    assert(after[i] == layers[i] && after[j] == layers[j]);
                } else if i == at {
                    assert(after[j] == layers[j]);
                } else {
                    assert(after[i] == layers[i]);
                }
            }
            assert forall|i: int| 0 <= i < after.len() implies (#[trigger] after[i]).id
                != tag_alias() && !after[i].completed by {
                if i != at {
                    assert(after[i] == layers[i]);
                }
            }
        }
    }
    if tracks(after, tag_alias()) {
        let k = choose|k: int| 0 <= k < after.len() && (#[trigger] after[k]).id == tag_alias();
        assert(after[k].id != tag_alias());
    }
}

/// Whatever events a pull reports, in whatever order, the table stays well
/// formed and never holds an entry for the tag alias.
pub proof fn lemma_run_keeps_well_formed(events: Seq<EventView>)
    ensures
        well_formed(run(Seq::empty(), events)),
        !tracks(run(Seq::empty(), events), tag_alias()),
    decreases events.len(),
{
    if events.len() > 0 {
        lemma_run_keeps_well_formed(events.drop_last());
        lemma_step_keeps_well_formed(run(Seq::empty(), events.drop_last()), events.last());
    }
}

impl Clone for LayerProgress {
    fn clone(&self) -> (copy: LayerProgress)
        ensures
            copy@ == self@,
    {
        LayerProgress {
            layer_id: self.layer_id.clone(),
            current_bytes: self.current_bytes,
            total_bytes: self.total_bytes,
            status_text: self.status_text.clone(),
            completed: self.completed,
        }
    }
}

fn to_size(n: i64) -> (size: u64)
    ensures
        size == size_of(n),
{
    if n >= 0 {
        n as u64
    } else {
        let low: u64 = (n + 0x7fff_ffff_ffff_ffff + 1) as u64;
        low + 0x8000_0000_0000_0000
    }
}

impl PullEvent {
    /// The event with these fields, as the engine reports them.
    pub fn new(
        id: Option<String>,
        current: Option<i64>,
        total: Option<i64>,
        status: Option<String>,
    ) -> (event: PullEvent)
        ensures
            event@.id == optional_view(id),
            event@.update == update_of(current, total, optional_view(status)),
    {
        let size: Option<(u64, u64)> = match (current, total) {
            (Some(current), Some(total)) => Some((to_size(current), to_size(total))),
            _ => None,
        };
        let update = match size {
            Some((current, total)) => match status {
                Some(text) => LayerUpdate::SizeAndStatus { current, total, text },
                None => LayerUpdate::Size { current, total },
            },
            None => match status {
                Some(text) => LayerUpdate::Status { text },
                None => LayerUpdate::Nothing,
            },
        };
        PullEvent { id, update }
    }
}

impl LayerUpdate {
    /// The size pair of the update, if it has one.
    pub fn size(&self) -> (r: Option<(u64, u64)>)
        ensures
            r == self@.size,
    {
        match self {
            LayerUpdate::Size { current, total } => Some((*current, *total)),
            LayerUpdate::SizeAndStatus { current, total, .. } => Some((*current, *total)),
            _ => None,
        }
    }

    /// The status text of the update, if it has one.
    pub fn status(&self) -> (r: Option<&String>)
        ensures
            r is Some == self@.status is Some,
            r is Some ==> r->0@ == self@.status->0,
    {
        match self {
            LayerUpdate::Status { text } => Some(text),
            LayerUpdate::SizeAndStatus { text, .. } => Some(text),
            _ => None,
        }
    }
}

impl ProgressTable {
    /// The invariant of the table: it is well formed.
    pub open spec fn inv(&self) -> bool {
        well_formed(self@)
    }

    /// A table without entries.
    pub fn new() -> (table: ProgressTable)
        ensures
            table@ == Seq::<LayerView>::empty(),
            table.inv(),
    {
        let table = ProgressTable { layers: Vec::new() };
        assert(table@ =~= Seq::<LayerView>::empty());
        table
    }

    /// The number of open layers.
    pub fn len(&self) -> (n: usize)
        ensures
            n == self@.len(),
    {
        self.layers.len()
    }

    /// Whether no layer is open.
    pub fn is_empty(&self) -> (r: bool)
        ensures
            r == (self@.len() == 0),
    {
        self.layers.len() == 0
    }

    /// The entry at index `i`.
    pub fn layer(&self, i: usize) -> (r: &LayerProgress)
        requires
            i < self@.len(),
        ensures
            r@ == self@[i as int],
    {
        &self.layers[i]
    }

    /// The index of the entry of layer `id`, or the number of entries where
    /// the layer has none.
    pub fn find(&self, id: &String) -> (at: usize)
        ensures
            at == position(self@, id@),
            at <= self@.len(),
    {
        let mut i: usize = 0;
        assert(self@.skip(0) =~= self@);
        while i < self.layers.len()
            invariant
                i <= self.layers.len(),
                position(self@, id@) == i + position(self@.skip(i as int), id@),
            decreases self.layers.len() - i,
        {
            if self.layers[i].layer_id == *id {
                assert(self@.skip(i as int)[0] == self@[i as int]);
                return i;
            }
            proof {
                assert(self@.skip(i as int)[0] == self@[i as int]);
                assert(self@.skip(i as int).drop_first() =~= self@.skip(i + 1));
            }
            i += 1;
        }
        assert(self@.skip(i as int).len() == 0);
        i
    }

    /// Applies one event of the pull stream.
    ///
    /// An event without an id, or with the id of the tag alias, changes
    /// nothing. Otherwise the layer's entry is looked up, or made; a size pair
    /// sets its position and its total; the completion marker takes the entry
    /// out of the table; any other status text is applied to the entry.
    pub fn apply(&mut self, event: &PullEvent) -> (r: LayerChange)
        ensures
            final(self)@ == step(old(self)@, event@),
            r@ == change(old(self)@, event@),
            old(self).inv() ==> final(self).inv(),
    {
        proof {
            if self.inv() {
                lemma_step_keeps_well_formed(self@, event@);
            }
        }
        let id: &String = match &event.id {
            None => {
                return LayerChange::Ignored;
            },
            Some(id) => id,
        };
        if same_text(id.as_str(), "latest") {
            return LayerChange::Ignored;
        }
        let at: usize = self.find(id);
        let ghost before = self@;
        let mut entry: LayerProgress = if at < self.layers.len() {
            self.layers[at].clone()
        } else {
            LayerProgress {
                layer_id: id.clone(),
                current_bytes: 0,
                total_bytes: None,
                status_text: String::new(),
                completed: false,
            }
        };
        proof {
            lemma_position(before, id@);
        }
        match event.update.size() {
            Some((current, total)) => {
                entry.current_bytes = current;
                entry.total_bytes = Some(total);
            },
            None => {},
        }
        assert(entry@ == target(before, event@));
        match event.update.status() {
            Some(text) => {
                if same_text(text.as_str(), "Pull complete") {
                    if at < self.layers.len() {
                        self.layers.remove(at);
                        assert(self@ =~= before.remove(at as int));
                    }
                    entry.completed = true;
                    return LayerChange::Finalized(entry);
                }
                if ends_with(text.as_str(), " complete") && entry.total_bytes.is_some() {
                    entry.current_bytes = entry.total_bytes.unwrap();
                } else {
                    entry.status_text = text.clone();
                }
            },
            None => {},
        }
        assert(entry@ == noted(target(before, event@), event@.update));
        let shown = entry.clone();
        if at < self.layers.len() {
            self.layers.set(at, entry);
            assert(self@ =~= before.update(at as int, shown@));
        } else {
            self.layers.push(entry);
            assert(self@ =~= before.push(shown@));
        }
        LayerChange::Updated(shown)
    }

    /// Closes every layer that is still open, as at the end of the stream:
    /// the table is empty afterwards, and the entries it held are handed out
    /// marked complete.
    pub fn finish(&mut self) -> (closed: Vec<LayerProgress>)
        ensures
            final(self)@ == Seq::<LayerView>::empty(),
            final(self).inv(),
            layer_views(closed@) == resolved(old(self)@),
    {
        let mut closed: Vec<LayerProgress> = Vec::new();
        let mut i: usize = 0;
        while i < self.layers.len()
            invariant
                self@ == old(self)@,
                i <= self.layers.len(),
                closed@.len() == i,
                forall|k: int|
                    0 <= k < i ==> (#[trigger] closed@[k])@ == (LayerView {
                        completed: true,
                        ..old(self)@[k]
                    }),
            decreases self.layers.len() - i,
        {
            let mut entry = self.layers[i].clone();
            entry.completed = true;
            closed.push(entry);
            i += 1;
        }
        self.layers = Vec::new();
        assert(self@ =~= Seq::<LayerView>::empty());
        assert(layer_views(closed@) =~= resolved(old(self)@));
        closed
    }
}

/// The entry of a layer, if the layer is open.
pub open spec fn entry(layers: Seq<LayerView>, id: Seq<char>) -> Option<LayerView> {
    if position(layers, id) < layers.len() {
        Some(layers[position(layers, id)])
    } else {
        None
    }
}

/// An event touches the entry of its own layer only: the entry of every
/// other layer stays as it is, open or not. So the events of different
/// layers may come in any interleaving.
pub proof fn lemma_step_leaves_other_layers(layers: Seq<LayerView>, ev: EventView, id: Seq<char>)
    requires
        well_formed(layers),
        ev.id != Some(id),
    ensures
        entry(step(layers, ev), id) == entry(layers, id),
{
    let after = step(layers, ev);
    lemma_position(layers, id);
    lemma_position(after, id);
    lemma_step_keeps_well_formed(layers, ev);
    if is_tracked(ev.id) {
        let own = ev.id->0;
        let at = position(layers, own);
        let p = position(layers, id);
        let q = position(after, id);
        lemma_position(layers, own);
        if closes(ev.update) && at < layers.len() {
            if p < layers.len() {
                let k = if p < at { p } else { p - 1 };
                assert(after[k] == layers[p]);
                if q < after.len() {
                    let j = if q < at { q } else { q + 1 };
                    assert(after[q] == layers[j]);
                    assert(j == p);
                } else {
                    assert(after[k].id == id);
                }
            } else if q < after.len() {
                let j = if q < at { q } else { q + 1 };
                assert(after[q] == layers[j]);
            }
        } else if !closes(ev.update) {
            if p < layers.len() {
                assert(p != at);
                assert(after[p] == layers[p]);
                if q < after.len() {
                    if q != at {
                        assert(after[q] == layers[q]);
                    }
                    assert(q == p);
                } else {
                    assert(after[p].id == id);
                }
            } else if q < after.len() {
                if q != at {
                    assert(after[q] == layers[q]);
                }
            }
        }
    }
}

/// An event for the tag alias, or without an id, changes nothing and shows
/// nothing, whatever else it carries.
pub proof fn lemma_untracked_event_is_ignored(layers: Seq<LayerView>, ev: EventView)
    requires
        ev.id is None || ev.id == Some(tag_alias()),
    ensures
        step(layers, ev) == layers,
        change(layers, ev) is Ignored,
{
}

/// When the stream ends, every layer that is still open is handed out, in
/// order and marked complete, whether it ever reported its completion or
/// not. An empty table hands out nothing, so that ending the stream twice is
/// ending it once.
pub proof fn lemma_finish_resolves_all(layers: Seq<LayerView>)
    ensures
        resolved(layers).len() == layers.len(),
        forall|i: int|
            0 <= i < layers.len() ==> (#[trigger] resolved(layers)[i]).completed && resolved(
                layers,
            )[i].id == layers[i].id,
        resolved(Seq::<LayerView>::empty()) == Seq::<LayerView>::empty(),
{
    assert(resolved(Seq::<LayerView>::empty()) =~= Seq::<LayerView>::empty());
}

} // verus!
