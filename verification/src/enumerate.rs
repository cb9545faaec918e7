//! Pagination-driven enumeration of deletion targets.
//!
//! An [`Enumerator`] gathers the complete inventory of a bucket from the
//! pages of a listing. It says which page to ask for, takes the answer, and
//! either asks for the next page, or ends with the inventory, or, where a
//! listing call failed, ends with the error and nothing else.

use vstd::prelude::*;
use crate::target::{copy_text, inventory_view, text_of, texts_of, DeletionTarget, TargetView};

verus! {

/// Which listing an enumeration goes through.
#[derive(Clone, Copy, Debug, PartialEq, Eq, Structural)]
pub enum ListingMode {
    /// The listing of current objects: targets without a version.
    PlainObjects,
    /// The listing of versions and delete markers: version-qualified targets.
    VersionsAndMarkers,
}

/// Where a listing goes on: a key marker and, for version listings, a
/// version-id marker. Either may be missing without the other.
pub struct CursorView {
    pub key_marker: Option<Seq<char>>,
    pub version_id_marker: Option<Seq<char>>,
}

impl CursorView {
    /// The cursor of a first request: no marker at all.
    pub open spec fn start() -> CursorView {
        CursorView { key_marker: None, version_id_marker: None }
    }

    /// Whether the cursor holds no marker at all.
    pub open spec fn is_absent(self) -> bool {
        self.key_marker is None && self.version_id_marker is None
    }
}

/// The continuation state that a listing call returns and the next one
/// takes.
#[derive(Debug)]
pub struct PageCursor {
    pub key_marker: Option<String>,
    pub version_id_marker: Option<String>,
}

impl View for PageCursor {
    type V = CursorView;

    open spec fn view(&self) -> CursorView {
        CursorView {
            key_marker: text_of(self.key_marker),
            version_id_marker: text_of(self.version_id_marker),
        }
    }
}

impl PageCursor {
    /// The cursor of a first request.
    pub fn start() -> (cursor: PageCursor)
        ensures
            cursor@ == CursorView::start(),
    {
        PageCursor { key_marker: None, version_id_marker: None }
    }

    /// Whether the cursor holds no marker at all.
    pub fn is_absent(&self) -> (absent: bool)
        ensures
            absent == self@.is_absent(),
    {
        self.key_marker.is_none() && self.version_id_marker.is_none()
    }

    /// A copy of the cursor.
    pub fn duplicate(&self) -> (cursor: PageCursor)
        ensures
            cursor@ == self@,
    {
        PageCursor {
            key_marker: copy_text(&self.key_marker),
            version_id_marker: copy_text(&self.version_id_marker),
        }
    }
}

/// What one listing response holds.
pub struct PageView {
    pub targets: Seq<TargetView>,
    pub truncated: bool,
    pub next: CursorView,
}

impl PageView {
    /// Whether another page is to be asked for: the response says that it
    /// was cut short, and it returned a cursor to go on from.
    pub open spec fn continues(self) -> bool {
        self.truncated && !self.next.is_absent()
    }
}

/// One listing response: its targets, whether the listing was cut short, and
/// the cursor that it returned.
#[derive(Debug)]
pub struct ListingPage {
    pub targets: Vec<DeletionTarget>,
    pub truncated: bool,
    pub next: PageCursor,
}

impl View for ListingPage {
    type V = PageView;

    open spec fn view(&self) -> PageView {
        PageView {
            targets: inventory_view(self.targets@),
            truncated: self.truncated,
            next: self.next@,
        }
    }
}

/// What a record of the version listing holds.
pub struct RecordView {
    pub key: Option<Seq<char>>,
    pub version_id: Option<Seq<char>>,
}

/// One record of the version listing, a version or a delete marker, as the
/// service returned it: either part may be missing.
pub struct VersionRecord {
    pub key: Option<String>,
    pub version_id: Option<String>,
}

impl View for VersionRecord {
    type V = RecordView;

    open spec fn view(&self) -> RecordView {
        RecordView { key: text_of(self.key), version_id: text_of(self.version_id) }
    }
}

/// What each record of a sequence holds, in order.
pub open spec fn records_view(records: Seq<VersionRecord>) -> Seq<RecordView> {
    records.map_values(|r: VersionRecord| r@)
}

/// The targets without a version for `keys`, in order.
pub open spec fn plain_targets(keys: Seq<Seq<char>>) -> Seq<TargetView> {
    keys.map_values(|key: Seq<char>| TargetView { key, version_id: None })
}

/// The version-qualified targets for the records that hold both a key and a
/// version identifier, in order. A record that lacks either names nothing
/// that could be deleted and is left out.
pub open spec fn record_targets(records: Seq<RecordView>) -> Seq<TargetView>
    decreases records.len(),
{
    if records.len() == 0 {
        Seq::empty()
    } else {
        let rest = record_targets(records.drop_last());
        match (records.last().key, records.last().version_id) {
            (Some(key), Some(version_id)) => rest.push(
                TargetView { key, version_id: Some(version_id) },
            ),
            _ => rest,
        }
    }
}

/// Adds to `targets` a target without a version for each of `keys`.
fn push_plain_targets(targets: &mut Vec<DeletionTarget>, keys: Vec<String>)
    ensures
        inventory_view(final(targets)@) == inventory_view(old(targets)@) + plain_targets(
            texts_of(keys@),
        ),
{
    let ghost before = inventory_view(targets@);
    let ghost all = plain_targets(texts_of(keys@));
    for key in it: keys
        invariant
            it.seq() == keys@,
            all == plain_targets(texts_of(keys@)),
            inventory_view(targets@) == before + all.take(it.index() as int),
    {
        let ghost so_far = inventory_view(targets@);
        targets.push(DeletionTarget::plain(key));
        assert(inventory_view(targets@) =~= so_far.push(targets@.last()@));
        assert(all.take(it.index() as int + 1) =~= all.take(it.index() as int).push(
            targets@.last()@,
        ));
        assert(inventory_view(targets@) =~= before + all.take(it.index() as int + 1));
    }
    assert(all.take(all.len() as int) =~= all);
}

/// Adds to `targets` a version-qualified target for each of `records` that
/// holds both a key and a version identifier.
fn push_record_targets(targets: &mut Vec<DeletionTarget>, records: Vec<VersionRecord>)
    ensures
        inventory_view(final(targets)@) == inventory_view(old(targets)@) + record_targets(
            records_view(records@),
        ),
{
    let ghost before = inventory_view(targets@);
    let ghost all = records_view(records@);
    for record in it: records
        invariant
            it.seq() == records@,
            all == records_view(records@),
            inventory_view(targets@) == before + record_targets(all.take(it.index() as int)),
    {
        let ghost so_far = inventory_view(targets@);
        proof {
            assert(all.take(it.index() as int + 1).drop_last() =~= all.take(it.index() as int));
            assert(all.take(it.index() as int + 1).last() == record@);
        }
        match (record.key, record.version_id) {
            (Some(key), Some(version_id)) => {
                targets.push(DeletionTarget::versioned(key, version_id));
                assert(inventory_view(targets@) =~= so_far.push(targets@.last()@));
                assert(inventory_view(targets@) =~= before + record_targets(
                    all.take(it.index() as int + 1),
                ));
            },
            _ => {},
        }
    }
    assert(all.take(all.len() as int) =~= all);
}

/// The page that a response of the plain listing stands for: a target
/// without a version for each key, and the continuation token as the key
/// marker of the cursor.
pub fn object_page(keys: Vec<String>, truncated: bool, next_token: Option<String>) -> (page:
    ListingPage)
    ensures
        page@ == (PageView {
            targets: plain_targets(texts_of(keys@)),
            truncated,
            next: CursorView { key_marker: text_of(next_token), version_id_marker: None },
        }),
{
    let mut targets: Vec<DeletionTarget> = Vec::new();
    assert(inventory_view(targets@) =~= Seq::empty());
    push_plain_targets(&mut targets, keys);
    assert(inventory_view(targets@) =~= plain_targets(texts_of(keys@)));
    ListingPage {
        targets,
        truncated,
        next: PageCursor { key_marker: next_token, version_id_marker: None },
    }
}

/// The page that a response of the version listing stands for: the targets
/// of its versions, then those of its delete markers, and both returned
/// markers as the cursor.
pub fn version_page(
    versions: Vec<VersionRecord>,
    delete_markers: Vec<VersionRecord>,
    truncated: bool,
    next_key_marker: Option<String>,
    next_version_id_marker: Option<String>,
) -> (page: ListingPage)
    ensures
        page@ == (PageView {
            targets: record_targets(records_view(versions@)) + record_targets(
                records_view(delete_markers@),
            ),
            truncated,
            next: CursorView {
                key_marker: text_of(next_key_marker),
                version_id_marker: text_of(next_version_id_marker),
            },
        }),
{
    let mut targets: Vec<DeletionTarget> = Vec::new();
    assert(inventory_view(targets@) =~= Seq::empty());
    push_record_targets(&mut targets, versions);
    push_record_targets(&mut targets, delete_markers);
    assert(inventory_view(targets@) =~= record_targets(records_view(versions@)) + record_targets(
        records_view(delete_markers@),
    ));
    ListingPage {
        targets,
        truncated,
        next: PageCursor { key_marker: next_key_marker, version_id_marker: next_version_id_marker },
    }
}

/// What a failed listing call says.
pub struct FailureView {
    pub code: Option<Seq<char>>,
}

/// A listing call failed. `code` is the error code of the storage service,
/// where it gave one.
#[derive(Debug)]
pub struct EnumerationError {
    pub code: Option<String>,
}

impl View for EnumerationError {
    type V = FailureView;

    open spec fn view(&self) -> FailureView {
        FailureView { code: text_of(self.code) }
    }
}

/// What a listing call came to.
pub open spec fn reply_view(reply: Result<ListingPage, EnumerationError>) -> Result<
    PageView,
    FailureView,
> {
    match reply {
        Ok(page) => Ok(page@),
        Err(error) => Err(error@),
    }
}

/// The state of an enumeration: its listing, the targets gathered so far,
/// and the cursor of the page to ask for next.
pub struct EnumeratorView {
    pub mode: ListingMode,
    pub inventory: Seq<TargetView>,
    pub cursor: CursorView,
}

/// Where an enumeration stands after a listing call.
pub enum StepView {
    /// Another page is to be asked for.
    Continue(EnumeratorView),
    /// The listing is through: this is the inventory.
    Complete(Seq<TargetView>),
    /// A listing call failed: there is no inventory.
    Failed(FailureView),
}

impl EnumeratorView {
    /// The state before the first listing call.
    pub open spec fn start(mode: ListingMode) -> EnumeratorView {
        EnumeratorView { mode, inventory: Seq::empty(), cursor: CursorView::start() }
    }

    /// Where the enumeration stands after `reply`. A failed call ends it
    /// without an inventory. A page adds its targets behind those gathered
    /// before; the enumeration then goes on from the page's cursor where the
    /// page continues, and is complete where it does not.
    pub open spec fn accept(self, reply: Result<PageView, FailureView>) -> StepView {
        match reply {
            Err(failure) => StepView::Failed(failure),
            Ok(page) => if page.continues() {
                StepView::Continue(
                    EnumeratorView {
                        mode: self.mode,
                        inventory: self.inventory + page.targets,
                        cursor: page.next,
                    },
                )
            } else {
                StepView::Complete(self.inventory + page.targets)
            },
        }
    }
}

/// An enumeration under way.
pub struct Enumerator {
    mode: ListingMode,
    inventory: Vec<DeletionTarget>,
    cursor: PageCursor,
}

impl View for Enumerator {
    type V = EnumeratorView;

    closed spec fn view(&self) -> EnumeratorView {
        EnumeratorView {
            mode: self.mode,
            inventory: inventory_view(self.inventory@),
            cursor: self.cursor@,
        }
    }
}

/// Where an enumeration stands after a listing call.
pub enum ListingStep {
    /// Ask for the page that the enumerator's cursor names.
    Continue(Enumerator),
    /// The listing is through: this is the inventory.
    Complete(Vec<DeletionTarget>),
    /// A listing call failed. What had been gathered is discarded.
    Failed(EnumerationError),
}

impl View for ListingStep {
    type V = StepView;

    open spec fn view(&self) -> StepView {
        match self {
            ListingStep::Continue(enumerator) => StepView::Continue(enumerator@),
            ListingStep::Complete(inventory) => StepView::Complete(inventory_view(inventory@)),
            ListingStep::Failed(error) => StepView::Failed(error@),
        }
    }
}

impl Enumerator {
    /// An enumeration that has gathered nothing and is about to ask for the
    /// first page.
    pub fn new(mode: ListingMode) -> (enumerator: Enumerator)
        ensures
            enumerator@ == EnumeratorView::start(mode),
    {
        let inventory: Vec<DeletionTarget> = Vec::new();
        assert(inventory_view(inventory@) =~= Seq::empty());
        Enumerator { mode, inventory, cursor: PageCursor::start() }
    }

    /// The listing to call.
    pub fn mode(&self) -> (mode: ListingMode)
        ensures
            mode == self@.mode,
    {
        self.mode
    }

    /// The cursor to call the listing with.
    pub fn cursor(&self) -> (cursor: &PageCursor)
        ensures
            cursor@ == self@.cursor,
    {
        &self.cursor
    }

    /// The number of targets gathered so far.
    pub fn gathered(&self) -> (n: usize)
        ensures
            n == self@.inventory.len(),
    {
        self.inventory.len()
    }

    /// Takes the answer to the listing call that the enumerator asked for.
    pub fn accept(self, reply: Result<ListingPage, EnumerationError>) -> (step: ListingStep)
        ensures
            step@ == self@.accept(reply_view(reply)),
    {
        match reply {
            Err(error) => ListingStep::Failed(error),
            Ok(page) => {
                let Enumerator { mode, mut inventory, cursor: _ } = self;
                let ListingPage { mut targets, truncated, next } = page;
                let ghost before = inventory_view(inventory@);
                let ghost added = inventory_view(targets@);
                inventory.append(&mut targets);
                assert(inventory_view(inventory@) =~= before + added);
                if truncated && !next.is_absent() {
                    ListingStep::Continue(Enumerator { mode, inventory, cursor: next })
                } else {
                    ListingStep::Complete(inventory)
                }
            },
        }
    }
}

/// The targets of all of `pages`, in order.
pub open spec fn gathered(pages: Seq<PageView>) -> Seq<TargetView>
    decreases pages.len(),
{
    if pages.len() == 0 {
        Seq::empty()
    } else {
        gathered(pages.drop_last()) + pages.last().targets
    }
}

/// Where an enumeration that stands at `state` gets to when the listing
/// answers with `pages`, one after another: it takes pages as long as it has
/// reason to go on.
pub open spec fn run(state: EnumeratorView, pages: Seq<PageView>) -> StepView
    decreases pages.len(),
{
    if pages.len() == 0 {
        StepView::Continue(state)
    } else {
        match state.accept(Ok(pages.first())) {
            StepView::Continue(next) => run(next, pages.drop_first()),
            done => done,
        }
    }
}

/// Whether `pages` is one full listing: one page or more, of which each but
/// the last continues, and the last does not.
pub open spec fn is_full_listing(pages: Seq<PageView>) -> bool {
    &&& pages.len() > 0
    &&& forall|i: int| 0 <= i < pages.len() - 1 ==> (#[trigger] pages[i]).continues()
    &&& !pages.last().continues()
}

/// The cursor with which page `i` of a listing was asked for: none for the
/// first page, and for another page the cursor that the page before it
/// returned.
pub open spec fn request_cursor(pages: Seq<PageView>, i: int) -> CursorView {
    if i == 0 {
        CursorView::start()
    } else {
        pages[i - 1].next
    }
}

/// Whether each of `pages` is what `bucket` answers to the request that the
/// enumerator made for it. `bucket` stands for a bucket that nobody changes:
/// it answers a request by its cursor alone.
pub open spec fn answered_by(bucket: spec_fn(CursorView) -> PageView, pages: Seq<PageView>) -> bool {
    forall|i: int| 0 <= i < pages.len() ==> #[trigger] pages[i] == bucket(request_cursor(pages, i))
}

/// An enumeration that has gathered `state.inventory` and then takes a full
/// listing ends with the inventory that holds those targets and, behind
/// them, the targets of each page in turn.
pub proof fn lemma_run_gathers(state: EnumeratorView, pages: Seq<PageView>)
    requires
        is_full_listing(pages),
    ensures
        run(state, pages) == StepView::Complete(state.inventory + gathered(pages)),
    decreases pages.len(),
{
    let first = pages.first();
    let rest = pages.drop_first();
    if pages.len() == 1 {
        assert(pages.last() == first);
        assert(pages.drop_last() =~= Seq::<PageView>::empty());
        assert(gathered(pages.drop_last()) =~= Seq::<TargetView>::empty());
        assert(gathered(pages) =~= first.targets);
    } else {
        assert(first == pages[0]);
        assert(first.continues());
        let next = EnumeratorView {
            mode: state.mode,
            inventory: state.inventory + first.targets,
            cursor: first.next,
        };
        assert forall|i: int| 0 <= i < rest.len() - 1 implies (#[trigger] rest[i]).continues() by {
            assert(rest[i] == pages[i + 1]);
        }
        assert(rest.last() == pages.last());
        lemma_run_gathers(next, rest);
        lemma_gathered_first(pages);
        assert(next.inventory + gathered(rest) =~= state.inventory + gathered(pages));
    }
}

/// The targets of some pages are those of the first page, then those of the
/// others.
pub proof fn lemma_gathered_first(pages: Seq<PageView>)
    requires
        pages.len() > 0,
    ensures
        gathered(pages) == pages.first().targets + gathered(pages.drop_first()),
    decreases pages.len(),
{
    if pages.len() == 1 {
        assert(pages.drop_last() =~= Seq::<PageView>::empty());
        assert(pages.drop_first() =~= Seq::<PageView>::empty());
        assert(gathered(pages.drop_last()) =~= Seq::<TargetView>::empty());
        assert(gathered(pages) =~= pages.first().targets + gathered(pages.drop_first()));
    } else {
        lemma_gathered_first(pages.drop_last());
        assert(pages.drop_last().drop_first() =~= pages.drop_first().drop_last());
        assert(pages.drop_last().first() == pages.first());
        assert(pages.drop_first().last() == pages.last());
        assert(gathered(pages) =~= pages.first().targets + gathered(pages.drop_first()));
    }
}

/// Two listings of one unchanged bucket agree page by page.
proof fn lemma_same_pages(
    bucket: spec_fn(CursorView) -> PageView,
    first: Seq<PageView>,
    second: Seq<PageView>,
    i: int,
)
    requires
        answered_by(bucket, first),
        answered_by(bucket, second),
        0 <= i < first.len(),
        i < second.len(),
    ensures
        first[i] == second[i],
    decreases i,
{
    if i > 0 {
        lemma_same_pages(bucket, first, second, i - 1);
    }
    assert(first[i] == bucket(request_cursor(first, i)));
    assert(second[i] == bucket(request_cursor(second, i)));
}

/// Enumeration is repeatable: two full enumerations of a bucket that nobody
/// changes in between see the same pages, and so end with the same
/// inventory, target for target, and with the same set of targets.
pub proof fn lemma_enumeration_repeatable(
    bucket: spec_fn(CursorView) -> PageView,
    mode: ListingMode,
    first: Seq<PageView>,
    second: Seq<PageView>,
)
    requires
        answered_by(bucket, first),
        answered_by(bucket, second),
        is_full_listing(first),
        is_full_listing(second),
    ensures
        run(EnumeratorView::start(mode), first) == StepView::Complete(gathered(first)),
        run(EnumeratorView::start(mode), second) == StepView::Complete(gathered(second)),
        gathered(first) == gathered(second),
        gathered(first).to_set() == gathered(second).to_set(),
{
    if first.len() < second.len() {
        lemma_same_pages(bucket, first, second, first.len() - 1);
        assert(second[first.len() - 1].continues());
    } else if second.len() < first.len() {
        lemma_same_pages(bucket, first, second, second.len() - 1);
        assert(first[second.len() - 1].continues());
    }
    assert forall|i: int| 0 <= i < first.len() implies first[i] == second[i] by {
        lemma_same_pages(bucket, first, second, i);
    }
    assert(first =~= second);
    let start = EnumeratorView::start(mode);
    lemma_run_gathers(start, first);
    lemma_run_gathers(start, second);
    assert(start.inventory + gathered(first) =~= gathered(first));
    assert(start.inventory + gathered(second) =~= gathered(second));
}

} // verus!
