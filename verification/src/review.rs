use vstd::prelude::*;

verus! {

/// What the user decided about an AI suggestion.
#[derive(Debug, Clone, Copy, PartialEq, Eq, Structural)]
pub enum ReviewAction {
    Accept,
    Reject,
}

/// The review status of a stored AI analysis result.
#[derive(Debug, Clone, Copy, PartialEq, Eq, Structural)]
pub enum AnalysisResultStatus {
    Pending,
    Accepted,
    Rejected,
    Expired,
}

/// The parts of a stored AI analysis result that a review reads.
#[derive(Debug)]
pub struct ReviewRecord {
    pub source_path: String,
    pub root_path: String,
    pub status: AnalysisResultStatus,
    pub content_fingerprint: String,
    pub suggested_filename: String,
}

/// A category a file can be organized into.
#[derive(Debug)]
pub struct Category {
    pub id: String,
    pub name: String,
    pub enabled: bool,
}

/// One file operation of a draft.
#[derive(Debug, PartialEq, Eq)]
pub enum OperationDraftItem {
    /// Rename the file where it is.
    AiRename { source_path: String, new_name: String, content_fingerprint: String },
    /// Move the file into a category directory under a new name.
    AiOrganize {
        source_path: String,
        category_id: String,
        new_name: String,
        content_fingerprint: String,
    },
}

/// File operations proposed for a root, to be confirmed before they run.
#[derive(Debug, PartialEq, Eq)]
pub struct OperationDraft {
    pub root_path: String,
    pub items: Vec<OperationDraftItem>,
}

/// Why a review was refused.
#[derive(Debug, PartialEq, Eq)]
pub enum ReviewError {
    /// Reading or writing the store failed, with the store's message.
    Storage(String),
    /// There is no analysis result with the requested id.
    ResultNotFound,
    /// The result was already reviewed or has expired.
    NotPending,
    /// The file could not be read again, with the reader's message.
    Fingerprint(String),
    /// The file changed since it was analysed; the result is now expired.
    ContentChanged,
    /// The suggestion did not pass validation, with the validator's message.
    InvalidSuggestion(String),
    /// The chosen category does not exist or is disabled.
    CategoryUnavailable,
    /// The category's directory could not be determined, with the reason.
    Destination(String),
    /// The category's directory has no usable name.
    DestinationNameUnavailable,
}

/// What the user asked for.
pub struct ReviewRequest {
    pub action: ReviewAction,
    /// A file name that replaces the suggested one.
    pub suggested_filename: Option<String>,
    /// The category chosen by the user.
    pub category_id: Option<String>,
}

/// Where a review stands.
pub enum ReviewState {
    /// Waiting for the stored result.
    ReadingRecord,
    /// Waiting for the `Rejected` status to be saved.
    SavingRejection,
    /// Waiting for the fingerprint of the file as it is now.
    CheckingFingerprint { record: ReviewRecord },
    /// Waiting for the `Expired` status to be saved.
    SavingExpiry,
    /// Waiting for the root's categories.
    ReadingCategories { record: ReviewRecord },
    /// Waiting for the validated suggestion.
    Validating { record: ReviewRecord, categories: Vec<Category> },
    /// Waiting for the category's directory.
    Locating { record: ReviewRecord, new_name: String },
    /// Waiting for the `Accepted` status to be saved.
    SavingAcceptance { draft: OperationDraft },
    /// The review is over.
    Finished,
}

/// What happened since the last command.
pub enum ReviewEvent {
    /// The stored result, if there is one.
    RecordRead(Option<ReviewRecord>),
    /// The requested status was saved.
    StatusSaved,
    /// The fingerprint of the file as it is now.
    FingerprintRead(String),
    /// The categories of the root.
    CategoriesRead(Vec<Category>),
    /// The suggestion as the validator accepted it.
    SuggestionValidated { new_name: String, category_id: Option<String> },
    /// The category's directory: whether the file already lies in it, and the
    /// directory's name when it has one.
    DestinationFound { same_directory: bool, directory_name: Option<String> },
    /// The last command failed.
    Failed(ReviewError),
}

/// What the caller is to do next.
#[allow(inconsistent_fields)]
pub enum ReviewCommand {
    /// Save this status for the result under review.
    SaveStatus(AnalysisResultStatus),
    /// Compute the content fingerprint of the file at this path.
    ReadFingerprint(String),
    /// Read the categories of this root.
    ReadCategories(String),
    /// Validate the suggestion for this file with this name and category.
    ValidateSuggestion { source_path: String, filename: String, category_id: Option<String> },
    /// Find the directory of this category under this root.
    LocateCategory { root_path: String, category_id: String, category_name: String },
    /// The review is over, with this outcome.
    Finish(Result<Option<OperationDraft>, ReviewError>),
}

/// The review starts by reading the stored result.
pub fn review_start() -> (r: ReviewState)
    ensures
        r is ReadingRecord,
{
    ReviewState::ReadingRecord
}

/// The state can take the event: it is the answer to the command that led
/// to the state, or a failure of it.
pub open spec fn review_accepts(state: ReviewState, event: ReviewEvent) -> bool {
    match state {
        ReviewState::ReadingRecord => event is RecordRead || event is Failed,
        ReviewState::SavingRejection => event is StatusSaved || event is Failed,
        ReviewState::CheckingFingerprint { .. } => event is FingerprintRead || event is Failed,
        ReviewState::SavingExpiry => event is StatusSaved || event is Failed,
        ReviewState::ReadingCategories { .. } => event is CategoriesRead || event is Failed,
        ReviewState::Validating { .. } => event is SuggestionValidated || event is Failed,
        ReviewState::Locating { .. } => event is DestinationFound || event is Failed,
        ReviewState::SavingAcceptance { .. } => event is StatusSaved || event is Failed,
        ReviewState::Finished => false,
    }
}

/// The first enabled category with this id.
pub open spec fn enabled_category(categories: Seq<Category>, id: Seq<char>) -> Option<Category>
    decreases categories.len(),
{
    if categories.len() == 0 {
        None
    } else if categories[0].enabled && categories[0].id@ == id {
        Some(categories[0])
    } else {
        enabled_category(categories.drop_first(), id)
    }
}

/// `r` finishes the review with `outcome`.
pub open spec fn finishes(r: (ReviewState, ReviewCommand), outcome: Result<Option<OperationDraft>, ReviewError>) -> bool {
    r.0 is Finished && r.1 == ReviewCommand::Finish(outcome)
}

/// The draft that renames the file in place.
pub open spec fn is_rename_draft(draft: OperationDraft, record: ReviewRecord, new_name: Seq<char>) -> bool {
    &&& draft.root_path == record.root_path
    &&& draft.items@.len() == 1
    &&& draft.items@[0] matches OperationDraftItem::AiRename { source_path, new_name: n, content_fingerprint }
        && source_path@ == record.source_path@ && n@ == new_name
        && content_fingerprint@ == record.content_fingerprint@
}

/// The draft that moves the file into the directory `directory_name`.
pub open spec fn is_organize_draft(
    draft: OperationDraft,
    record: ReviewRecord,
    directory_name: Seq<char>,
    new_name: Seq<char>,
) -> bool {
    &&& draft.root_path == record.root_path
    &&& draft.items@.len() == 1
    &&& draft.items@[0] matches OperationDraftItem::AiOrganize {
        source_path,
        category_id,
        new_name: n,
        content_fingerprint,
    } && source_path@ == record.source_path@ && category_id@ == directory_name && n@ == new_name
        && content_fingerprint@ == record.content_fingerprint@
}

/// `r` saves `Accepted` and then proposes `draft`.
pub open spec fn accepts_with(r: (ReviewState, ReviewCommand), pred: spec_fn(OperationDraft) -> bool) -> bool {
    &&& r.1 == ReviewCommand::SaveStatus(AnalysisResultStatus::Accepted)
    &&& r.0 matches ReviewState::SavingAcceptance { draft } && pred(draft)
}

/// One step of a review. A failure ends it with that error. A missing result
/// is refused, as is one that is not pending. A rejection saves `Rejected` and
/// ends without a draft. An acceptance first computes the file's fingerprint:
/// when it differs from the analysed one, `Expired` is saved and the review is
/// refused; otherwise the categories are read and the suggestion is validated
/// with the user's file name (or the suggested one) and category. Without a
/// category the draft renames the file; with one, the category must be
/// enabled, and its directory decides: a file already there is renamed, any
/// other is moved there under the directory's name. An accepted draft is
/// proposed once `Accepted` is saved.
pub open spec fn review_transition(
    request: ReviewRequest,
    state: ReviewState,
    event: ReviewEvent,
    r: (ReviewState, ReviewCommand),
) -> bool {
    match event {
        ReviewEvent::Failed(e) => finishes(r, Err(e)),
        _ => match state {
            ReviewState::ReadingRecord => match event {
                ReviewEvent::RecordRead(None) => finishes(r, Err(ReviewError::ResultNotFound)),
                ReviewEvent::RecordRead(Some(record)) => if record.status != AnalysisResultStatus::Pending {
                    finishes(r, Err(ReviewError::NotPending))
                } else if request.action == ReviewAction::Reject {
                    r.0 is SavingRejection && r.1 == ReviewCommand::SaveStatus(
                        AnalysisResultStatus::Rejected,
                    )
                } else {
                    &&& r.0 == (ReviewState::CheckingFingerprint { record })
                    &&& r.1 matches ReviewCommand::ReadFingerprint(path) && path@ == record.source_path@
                },
                _ => true,
            },
            ReviewState::SavingRejection => finishes(r, Ok(None)),
            ReviewState::CheckingFingerprint { record } => match event {
                ReviewEvent::FingerprintRead(actual) => if actual@ != record.content_fingerprint@ {
                    r.0 is SavingExpiry && r.1 == ReviewCommand::SaveStatus(
                        AnalysisResultStatus::Expired,
                    )
                } else {
                    &&& r.0 == (ReviewState::ReadingCategories { record })
                    &&& r.1 matches ReviewCommand::ReadCategories(root) && root@ == record.root_path@
                },
                _ => true,
            },
            ReviewState::SavingExpiry => finishes(r, Err(ReviewError::ContentChanged)),
            ReviewState::ReadingCategories { record } => match event {
                ReviewEvent::CategoriesRead(categories) => {
                    &&& r.0 == (ReviewState::Validating { record, categories })
                    &&& r.1 matches ReviewCommand::ValidateSuggestion { source_path, filename, category_id }
                        && source_path@ == record.source_path@ && filename@ == (match request.suggested_filename {
                        Some(f) => f@,
                        None => record.suggested_filename@,
                    }) && category_id == request.category_id
                },
                _ => true,
            },
            ReviewState::Validating { record, categories } => match event {
                ReviewEvent::SuggestionValidated { new_name, category_id: None } => accepts_with(
                    r,
                    |d: OperationDraft| is_rename_draft(d, record, new_name@),
                ),
                ReviewEvent::SuggestionValidated { new_name, category_id: Some(id) } => match enabled_category(
                    categories@,
                    id@,
                ) {
                    None => finishes(r, Err(ReviewError::CategoryUnavailable)),
                    Some(category) => {
                        &&& r.0 == (ReviewState::Locating { record, new_name })
                        &&& r.1 matches ReviewCommand::LocateCategory { root_path, category_id, category_name }
                            && root_path@ == record.root_path@ && category_id@ == category.id@
                            && category_name@ == category.name@
                    },
                },
                _ => true,
            },
            ReviewState::Locating { record, new_name } => match event {
                ReviewEvent::DestinationFound { same_directory, directory_name } => if same_directory {
                    accepts_with(r, |d: OperationDraft| is_rename_draft(d, record, new_name@))
                } else {
                    match directory_name {
                        Some(dir) => accepts_with(
                            r,
                            |d: OperationDraft| is_organize_draft(d, record, dir@, new_name@),
                        ),
                        None => finishes(r, Err(ReviewError::DestinationNameUnavailable)),
                    }
                },
                _ => true,
            },
            ReviewState::SavingAcceptance { draft } => finishes(r, Ok(Some(draft))),
            ReviewState::Finished => true,
        },
    }
}

} // verus!

verus! {

fn find_enabled_category(categories: &Vec<Category>, id: &String) -> (r: Option<usize>)
    ensures
        r is None ==> enabled_category(categories@, id@) is None,
        r matches Some(i) ==> i < categories@.len() && enabled_category(categories@, id@) == Some(
            categories@[i as int],
        ),
{
    let mut i: usize = 0;
    assert(categories@.skip(0) == categories@);
    while i < categories.len()
        invariant
            i <= categories@.len(),
            enabled_category(categories@, id@) == enabled_category(categories@.skip(i as int), id@),
        decreases categories@.len() - i,
    {
        let ghost rest = categories@.skip(i as int);
        assert(rest[0] == categories@[i as int]);
        assert(rest.drop_first() == categories@.skip(i + 1));
        if categories[i].enabled && categories[i].id == *id {
            return Some(i);
        }
        i = i + 1;
    }
    None
}

fn single_item_draft(root_path: String, item: OperationDraftItem) -> (d: OperationDraft)
    ensures
        d.root_path == root_path,
        d.items@ == seq![item],
{
    let mut items: Vec<OperationDraftItem> = Vec::new();
    items.push(item);
    OperationDraft { root_path, items }
}

fn rename_draft(record: ReviewRecord, new_name: String) -> (r: (ReviewState, ReviewCommand))
    ensures
        accepts_with(r, |d: OperationDraft| is_rename_draft(d, record, new_name@)),
{
    let ghost rec = record;
    let item = OperationDraftItem::AiRename {
        source_path: record.source_path,
        new_name,
        content_fingerprint: record.content_fingerprint,
    };
    let draft = single_item_draft(record.root_path, item);
    assert(is_rename_draft(draft, rec, new_name@));
    (ReviewState::SavingAcceptance { draft }, ReviewCommand::SaveStatus(AnalysisResultStatus::Accepted))
}

fn organize_draft(record: ReviewRecord, directory_name: String, new_name: String) -> (r: (ReviewState, ReviewCommand))
    ensures
        accepts_with(r, |d: OperationDraft| is_organize_draft(d, record, directory_name@, new_name@)),
{
    let ghost rec = record;
    let item = OperationDraftItem::AiOrganize {
        source_path: record.source_path,
        category_id: directory_name,
        new_name,
        content_fingerprint: record.content_fingerprint,
    };
    let draft = single_item_draft(record.root_path, item);
    assert(is_organize_draft(draft, rec, directory_name@, new_name@));
    (ReviewState::SavingAcceptance { draft }, ReviewCommand::SaveStatus(AnalysisResultStatus::Accepted))
}

fn finish(outcome: Result<Option<OperationDraft>, ReviewError>) -> (r: (ReviewState, ReviewCommand))
    ensures
        finishes(r, outcome),
{
    (ReviewState::Finished, ReviewCommand::Finish(outcome))
}

/// Takes a review one step further: from where it stands and what happened,
/// the next state and the command for the caller.
pub fn review_step(request: &ReviewRequest, state: ReviewState, event: ReviewEvent) -> (r: (ReviewState, ReviewCommand))
    requires
        review_accepts(state, event),
    ensures
        review_transition(*request, state, event, r),
{
    if let ReviewEvent::Failed(e) = event {
        return finish(Err(e));
    }
    match state {
        ReviewState::ReadingRecord => match event {
            ReviewEvent::RecordRead(None) => finish(Err(ReviewError::ResultNotFound)),
            ReviewEvent::RecordRead(Some(record)) => {
                if record.status != AnalysisResultStatus::Pending {
                    finish(Err(ReviewError::NotPending))
                } else if request.action == ReviewAction::Reject {
                    (ReviewState::SavingRejection, ReviewCommand::SaveStatus(AnalysisResultStatus::Rejected))
                } else {
                    let path = record.source_path.clone();
                    (ReviewState::CheckingFingerprint { record }, ReviewCommand::ReadFingerprint(path))
                }
            },
            _ => finish(Ok(None)),
        },
        ReviewState::SavingRejection => finish(Ok(None)),
        ReviewState::CheckingFingerprint { record } => match event {
            ReviewEvent::FingerprintRead(actual) => {
                if actual != record.content_fingerprint {
                    (ReviewState::SavingExpiry, ReviewCommand::SaveStatus(AnalysisResultStatus::Expired))
                } else {
                    let root = record.root_path.clone();
                    (ReviewState::ReadingCategories { record }, ReviewCommand::ReadCategories(root))
                }
            },
            _ => finish(Ok(None)),
        },
        ReviewState::SavingExpiry => finish(Err(ReviewError::ContentChanged)),
        ReviewState::ReadingCategories { record } => match event {
            ReviewEvent::CategoriesRead(categories) => {
                let source_path = record.source_path.clone();
                let filename = match &request.suggested_filename {
                    Some(f) => f.clone(),
                    None => record.suggested_filename.clone(),
                };
                let category_id = match &request.category_id {
                    Some(c) => Some(c.clone()),
                    None => None,
                };
                (
                    ReviewState::Validating { record, categories },
                    ReviewCommand::ValidateSuggestion { source_path, filename, category_id },
                )
            },
            _ => finish(Ok(None)),
        },
        ReviewState::Validating { record, categories } => match event {
            ReviewEvent::SuggestionValidated { new_name, category_id: None } => rename_draft(record, new_name),
            ReviewEvent::SuggestionValidated { new_name, category_id: Some(id) } => {
                match find_enabled_category(&categories, &id) {
                    None => finish(Err(ReviewError::CategoryUnavailable)),
                    Some(k) => {
                        let root_path = record.root_path.clone();
                        let category_id = categories[k].id.clone();
                        let category_name = categories[k].name.clone();
                        (
                            ReviewState::Locating { record, new_name },
                            ReviewCommand::LocateCategory { root_path, category_id, category_name },
                        )
                    },
                }
            },
            _ => finish(Ok(None)),
        },
        ReviewState::Locating { record, new_name } => match event {
            ReviewEvent::DestinationFound { same_directory, directory_name } => {
                if same_directory {
                    rename_draft(record, new_name)
                } else {
                    match directory_name {
                        Some(dir) => organize_draft(record, dir, new_name),
                        None => finish(Err(ReviewError::DestinationNameUnavailable)),
                    }
                }
            },
            _ => finish(Ok(None)),
        },
        ReviewState::SavingAcceptance { draft } => finish(Ok(Some(draft))),
        ReviewState::Finished => finish(Ok(None)),
    }
}

} // verus!

verus! {

/// A result that is no longer pending is refused at once, without any status
/// being saved.
pub proof fn lemma_only_pending_results_are_reviewed(request: ReviewRequest, record: ReviewRecord, r: (ReviewState, ReviewCommand))
    requires
        record.status != AnalysisResultStatus::Pending,
        review_transition(request, ReviewState::ReadingRecord, ReviewEvent::RecordRead(Some(record)), r),
    ensures
        r.0 is Finished,
        r.1 == ReviewCommand::Finish(Err(ReviewError::NotPending)),
{
}

/// Rejecting a pending result saves `Rejected`, and once that is saved the
/// review ends without a draft.
pub proof fn lemma_rejection_saves_rejected_and_proposes_nothing(
    request: ReviewRequest,
    record: ReviewRecord,
    r1: (ReviewState, ReviewCommand),
    r2: (ReviewState, ReviewCommand),
)
    requires
        record.status == AnalysisResultStatus::Pending,
        request.action == ReviewAction::Reject,
        review_transition(request, ReviewState::ReadingRecord, ReviewEvent::RecordRead(Some(record)), r1),
        review_transition(request, r1.0, ReviewEvent::StatusSaved, r2),
    ensures
        r1.1 == ReviewCommand::SaveStatus(AnalysisResultStatus::Rejected),
        r2.1 == ReviewCommand::Finish(Ok(None)),
{
}

/// When the file changed since it was analysed, the result is marked
/// `Expired` and the review is then refused.
pub proof fn lemma_changed_content_expires(
    request: ReviewRequest,
    record: ReviewRecord,
    actual: String,
    r1: (ReviewState, ReviewCommand),
    r2: (ReviewState, ReviewCommand),
)
    requires
        actual@ != record.content_fingerprint@,
        review_transition(
            request,
            ReviewState::CheckingFingerprint { record },
            ReviewEvent::FingerprintRead(actual),
            r1,
        ),
        review_transition(request, r1.0, ReviewEvent::StatusSaved, r2),
    ensures
        r1.1 == ReviewCommand::SaveStatus(AnalysisResultStatus::Expired),
        r2.1 == ReviewCommand::Finish(Err(ReviewError::ContentChanged)),
{
}

/// A draft is proposed only by the step after `Accepted` was requested, and
/// every step that waits for that save asked for exactly `Accepted` and holds a
/// draft of one item.
pub proof fn lemma_drafts_follow_acceptance(
    request: ReviewRequest,
    state: ReviewState,
    event: ReviewEvent,
    r: (ReviewState, ReviewCommand),
)
    requires
        review_accepts(state, event),
        review_transition(request, state, event, r),
    ensures
        r.1 matches ReviewCommand::Finish(Ok(Some(_))) ==> state is SavingAcceptance,
        (r.0 is SavingAcceptance && !(state is SavingAcceptance)) ==> r.1 == ReviewCommand::SaveStatus(
            AnalysisResultStatus::Accepted,
        ) && r.0->draft.items@.len() == 1,
{
}

} // verus!

verus! {

/// A run of a review: the events answered, the states passed through and the
/// commands given, from the first state on, each step as `review_step` takes it.
pub open spec fn is_review_run(
    request: ReviewRequest,
    events: Seq<ReviewEvent>,
    states: Seq<ReviewState>,
    commands: Seq<ReviewCommand>,
) -> bool {
    &&& states.len() == events.len() + 1
    &&& commands.len() == events.len()
    &&& states[0] is ReadingRecord
    &&& forall|k: int|
        0 <= k < events.len() ==> review_accepts(#[trigger] states[k], events[k])
            && review_transition(request, states[k], events[k], (states[k + 1], commands[k]))
}

/// The statuses saved during the first `n` events: a status counts once the
/// store confirms it (`StatusSaved` answering `SaveStatus`).
pub open spec fn saved_statuses(events: Seq<ReviewEvent>, commands: Seq<ReviewCommand>, n: int) -> Seq<
    AnalysisResultStatus,
>
    decreases n,
{
    if n <= 0 {
        Seq::empty()
    } else {
        let prev = saved_statuses(events, commands, n - 1);
        let k = n - 1;
        if k >= 1 && events[k] is StatusSaved && commands[k - 1] is SaveStatus {
            prev.push(commands[k - 1]->SaveStatus_0)
        } else {
            prev
        }
    }
}

/// The statuses a review that ends with `outcome` has saved: `Rejected` for a
/// rejection, `Accepted` for a proposed draft, `Expired` for changed content,
/// none otherwise.
pub open spec fn statuses_for(outcome: Result<Option<OperationDraft>, ReviewError>) -> Seq<AnalysisResultStatus> {
    match outcome {
        Ok(None) => seq![AnalysisResultStatus::Rejected],
        Ok(Some(_)) => seq![AnalysisResultStatus::Accepted],
        Err(ReviewError::ContentChanged) => seq![AnalysisResultStatus::Expired],
        Err(_) => Seq::empty(),
    }
}

/// What holds after the first `n` steps of a run.
pub open spec fn run_stage_holds(
    events: Seq<ReviewEvent>,
    states: Seq<ReviewState>,
    commands: Seq<ReviewCommand>,
    n: int,
) -> bool {
    match states[n] {
        ReviewState::SavingRejection => saved_statuses(events, commands, n).len() == 0 && n >= 1
            && commands[n - 1] == ReviewCommand::SaveStatus(AnalysisResultStatus::Rejected),
        ReviewState::SavingExpiry => saved_statuses(events, commands, n).len() == 0 && n >= 1
            && commands[n - 1] == ReviewCommand::SaveStatus(AnalysisResultStatus::Expired),
        ReviewState::SavingAcceptance { .. } => saved_statuses(events, commands, n).len() == 0 && n
            >= 1 && commands[n - 1] == ReviewCommand::SaveStatus(AnalysisResultStatus::Accepted),
        ReviewState::Finished => n >= 1 && (commands[n - 1] matches ReviewCommand::Finish(outcome)
            && (saved_statuses(events, commands, n) == statuses_for(outcome) || (saved_statuses(
            events,
            commands,
            n,
        ).len() == 0 && outcome == Err::<Option<OperationDraft>, ReviewError>(ReviewError::ContentChanged)
            && events[n - 1] == ReviewEvent::Failed(ReviewError::ContentChanged)))),
        _ => saved_statuses(events, commands, n).len() == 0,
    }
}

proof fn lemma_run_stages(
    request: ReviewRequest,
    events: Seq<ReviewEvent>,
    states: Seq<ReviewState>,
    commands: Seq<ReviewCommand>,
    n: int,
)
    requires
        is_review_run(request, events, states, commands),
        0 <= n <= events.len(),
    ensures
        run_stage_holds(events, states, commands, n),
    decreases n,
{
    if n > 0 {
        let k = n - 1;
        lemma_run_stages(request, events, states, commands, k);
        assert(review_accepts(states[k], events[k]));
        assert(review_transition(request, states[k], events[k], (states[k + 1], commands[k])));
        let prev = saved_statuses(events, commands, k);
        assert(k >= 1 && events[k] is StatusSaved && commands[k - 1] is SaveStatus ==> saved_statuses(
            events,
            commands,
            n,
        ) == prev.push(commands[k - 1]->SaveStatus_0));
        assert(!(k >= 1 && events[k] is StatusSaved && commands[k - 1] is SaveStatus)
            ==> saved_statuses(events, commands, n) == prev);
        match events[k] {
            ReviewEvent::Failed(e) => {
                assert(states[n] is Finished);
                assert(commands[k] == ReviewCommand::Finish(Err(e)));
                assert(prev.len() == 0);
                assert(prev == Seq::<AnalysisResultStatus>::empty());
                if e != ReviewError::ContentChanged {
                    assert(statuses_for(Err(e)) == Seq::<AnalysisResultStatus>::empty());
                }
            },
            ReviewEvent::StatusSaved => {
                assert(k >= 1);
                match states[k] {
                    ReviewState::SavingRejection => {
                        assert(prev == Seq::<AnalysisResultStatus>::empty());
                        assert(saved_statuses(events, commands, n) == seq![AnalysisResultStatus::Rejected]);
                    },
                    ReviewState::SavingExpiry => {
                        assert(prev == Seq::<AnalysisResultStatus>::empty());
                        assert(saved_statuses(events, commands, n) == seq![AnalysisResultStatus::Expired]);
                    },
                    ReviewState::SavingAcceptance { .. } => {
                        assert(prev == Seq::<AnalysisResultStatus>::empty());
                        assert(saved_statuses(events, commands, n) == seq![AnalysisResultStatus::Accepted]);
                    },
                    _ => {},
                }
            },
            _ => {
                assert(prev.len() == 0);
                assert(prev == Seq::<AnalysisResultStatus>::empty());
            },
        }
    }
}

/// Over a whole review: the statuses the store confirms are exactly those the
/// outcome calls for (`Rejected` for a rejection, `Accepted` for a proposed
/// draft, `Expired` for changed content, none for any other refusal), so a
/// refused review leaves the result pending unless its content changed. The one
/// other case is a content change reported to the review as the failure of a
/// command: the review then ends with that error and nothing saved. So at most
/// one status is saved, `Expired` only when the review is refused for changed
/// content, and whenever no reported failure is a content change the saved
/// statuses are exactly the outcome's.
pub proof fn lemma_review_saves_status_of_outcome(
    request: ReviewRequest,
    events: Seq<ReviewEvent>,
    states: Seq<ReviewState>,
    commands: Seq<ReviewCommand>,
    outcome: Result<Option<OperationDraft>, ReviewError>,
)
    requires
        is_review_run(request, events, states, commands),
        events.len() > 0,
        commands.last() == ReviewCommand::Finish(outcome),
    ensures
        saved_statuses(events, commands, events.len() as int) == statuses_for(outcome) || (saved_statuses(
            events,
            commands,
            events.len() as int,
        ).len() == 0 && outcome == Err::<Option<OperationDraft>, ReviewError>(ReviewError::ContentChanged)
            && events.last() == ReviewEvent::Failed(ReviewError::ContentChanged)),
        saved_statuses(events, commands, events.len() as int).len() <= 1,
        saved_statuses(events, commands, events.len() as int).contains(AnalysisResultStatus::Expired)
            ==> outcome == Err::<Option<OperationDraft>, ReviewError>(ReviewError::ContentChanged),
        (forall|k: int| 0 <= k < events.len() ==> !(#[trigger] events[k] == ReviewEvent::Failed(ReviewError::ContentChanged)))
            ==> saved_statuses(events, commands, events.len() as int) == statuses_for(outcome),
{
    let n = events.len() as int;
    lemma_run_stages(request, events, states, commands, n);
    let k = n - 1;
    assert(review_transition(request, states[k], events[k], (states[k + 1], commands[k])));
    assert(states[n] is Finished);
}

} // verus!
