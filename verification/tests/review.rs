use knowledge_index::review::{
    review_start, review_step, AnalysisResultStatus, Category, OperationDraft, OperationDraftItem,
    ReviewAction, ReviewCommand, ReviewError, ReviewEvent, ReviewRecord, ReviewRequest, ReviewState,
};

fn record(status: AnalysisResultStatus) -> ReviewRecord {
    ReviewRecord {
        source_path: "C:/root/inbox/scan.pdf".into(),
        root_path: "C:/root".into(),
        status,
        content_fingerprint: "abc".into(),
        suggested_filename: "invoice.pdf".into(),
    }
}

fn request(action: ReviewAction, category_id: Option<&str>) -> ReviewRequest {
    ReviewRequest {
        action,
        suggested_filename: None,
        category_id: category_id.map(String::from),
    }
}

fn categories() -> Vec<Category> {
    vec![
        Category { id: "old".into(), name: "Old".into(), enabled: false },
        Category { id: "bills".into(), name: "Bills".into(), enabled: true },
    ]
}

fn finished(command: ReviewCommand) -> Result<Option<OperationDraft>, ReviewError> {
    match command {
        ReviewCommand::Finish(outcome) => outcome,
        _ => panic!("the review should be over"),
    }
}

/// Runs an accepted review of a pending result up to the validated suggestion.
fn validated(req: &ReviewRequest, new_name: &str, category_id: Option<&str>) -> (ReviewState, ReviewCommand) {
    let (state, command) =
        review_step(req, review_start(), ReviewEvent::RecordRead(Some(record(AnalysisResultStatus::Pending))));
    assert!(matches!(command, ReviewCommand::ReadFingerprint(ref p) if p == "C:/root/inbox/scan.pdf"));
    let (state, command) = review_step(req, state, ReviewEvent::FingerprintRead("abc".into()));
    assert!(matches!(command, ReviewCommand::ReadCategories(ref r) if r == "C:/root"));
    let (state, command) = review_step(req, state, ReviewEvent::CategoriesRead(categories()));
    match &command {
        ReviewCommand::ValidateSuggestion { source_path, filename, category_id: chosen } => {
            assert_eq!(source_path, "C:/root/inbox/scan.pdf");
            assert_eq!(filename, "invoice.pdf");
            assert_eq!(chosen, &req.category_id);
        }
        _ => panic!("expected validation"),
    }
    review_step(
        req,
        state,
        ReviewEvent::SuggestionValidated {
            new_name: new_name.into(),
            category_id: category_id.map(String::from),
        },
    )
}

#[test]
fn missing_results_are_refused() {
    let req = request(ReviewAction::Accept, None);
    let (_, command) = review_step(&req, review_start(), ReviewEvent::RecordRead(None));
    assert_eq!(finished(command), Err(ReviewError::ResultNotFound));
}

#[test]
fn reviewed_results_are_refused() {
    let req = request(ReviewAction::Reject, None);
    let (_, command) =
        review_step(&req, review_start(), ReviewEvent::RecordRead(Some(record(AnalysisResultStatus::Accepted))));
    assert_eq!(finished(command), Err(ReviewError::NotPending));
}

#[test]
fn rejection_saves_rejected_and_proposes_nothing() {
    let req = request(ReviewAction::Reject, None);
    let (state, command) =
        review_step(&req, review_start(), ReviewEvent::RecordRead(Some(record(AnalysisResultStatus::Pending))));
    assert!(matches!(command, ReviewCommand::SaveStatus(AnalysisResultStatus::Rejected)));
    let (_, command) = review_step(&req, state, ReviewEvent::StatusSaved);
    assert_eq!(finished(command), Ok(None));
}

#[test]
fn changed_files_expire_the_result() {
    let req = request(ReviewAction::Accept, None);
    let (state, _) =
        review_step(&req, review_start(), ReviewEvent::RecordRead(Some(record(AnalysisResultStatus::Pending))));
    let (state, command) = review_step(&req, state, ReviewEvent::FingerprintRead("def".into()));
    assert!(matches!(command, ReviewCommand::SaveStatus(AnalysisResultStatus::Expired)));
    let (_, command) = review_step(&req, state, ReviewEvent::StatusSaved);
    assert_eq!(finished(command), Err(ReviewError::ContentChanged));
}

#[test]
fn acceptance_without_category_renames_in_place() {
    let req = request(ReviewAction::Accept, None);
    let (state, command) = validated(&req, "2024-invoice.pdf", None);
    assert!(matches!(command, ReviewCommand::SaveStatus(AnalysisResultStatus::Accepted)));
    let (_, command) = review_step(&req, state, ReviewEvent::StatusSaved);
    assert_eq!(
        finished(command),
        Ok(Some(OperationDraft {
            root_path: "C:/root".into(),
            items: vec![OperationDraftItem::AiRename {
                source_path: "C:/root/inbox/scan.pdf".into(),
                new_name: "2024-invoice.pdf".into(),
                content_fingerprint: "abc".into(),
            }],
        }))
    );
}

#[test]
fn acceptance_into_another_directory_moves_the_file() {
    let req = request(ReviewAction::Accept, Some("bills"));
    let (state, command) = validated(&req, "invoice.pdf", Some("bills"));
    match &command {
        ReviewCommand::LocateCategory { root_path, category_id, category_name } => {
            assert_eq!(root_path, "C:/root");
            assert_eq!(category_id, "bills");
            assert_eq!(category_name, "Bills");
        }
        _ => panic!("expected category lookup"),
    }
    let (state, command) = review_step(
        &req,
        state,
        ReviewEvent::DestinationFound { same_directory: false, directory_name: Some("Bills".into()) },
    );
    assert!(matches!(command, ReviewCommand::SaveStatus(AnalysisResultStatus::Accepted)));
    let (_, command) = review_step(&req, state, ReviewEvent::StatusSaved);
    assert_eq!(
        finished(command),
        Ok(Some(OperationDraft {
            root_path: "C:/root".into(),
            items: vec![OperationDraftItem::AiOrganize {
                source_path: "C:/root/inbox/scan.pdf".into(),
                category_id: "Bills".into(),
                new_name: "invoice.pdf".into(),
                content_fingerprint: "abc".into(),
            }],
        }))
    );
}

#[test]
fn acceptance_within_the_category_directory_renames() {
    let req = request(ReviewAction::Accept, Some("bills"));
    let (state, _) = validated(&req, "invoice.pdf", Some("bills"));
    let (state, _) = review_step(
        &req,
        state,
        ReviewEvent::DestinationFound { same_directory: true, directory_name: Some("Bills".into()) },
    );
    let (_, command) = review_step(&req, state, ReviewEvent::StatusSaved);
    assert!(matches!(
        finished(command),
        Ok(Some(OperationDraft { ref items, .. })) if matches!(items[..], [OperationDraftItem::AiRename { .. }])
    ));
}

#[test]
fn disabled_or_unnamed_categories_are_refused() {
    let req = request(ReviewAction::Accept, Some("old"));
    let (_, command) = validated(&req, "invoice.pdf", Some("old"));
    assert_eq!(finished(command), Err(ReviewError::CategoryUnavailable));
    let req = request(ReviewAction::Accept, Some("bills"));
    let (state, _) = validated(&req, "invoice.pdf", Some("bills"));
    let (_, command) = review_step(
        &req,
        state,
        ReviewEvent::DestinationFound { same_directory: false, directory_name: None },
    );
    assert_eq!(finished(command), Err(ReviewError::DestinationNameUnavailable));
}

#[test]
fn failures_end_the_review() {
    let req = request(ReviewAction::Accept, None);
    let (state, _) =
        review_step(&req, review_start(), ReviewEvent::RecordRead(Some(record(AnalysisResultStatus::Pending))));
    let (state, command) = review_step(&req, state, ReviewEvent::Failed(ReviewError::Fingerprint("gone".into())));
    assert!(matches!(state, ReviewState::Finished));
    assert_eq!(finished(command), Err(ReviewError::Fingerprint("gone".into())));
}

#[test]
fn user_file_name_replaces_the_suggestion() {
    let req = ReviewRequest {
        action: ReviewAction::Accept,
        suggested_filename: Some("mine.pdf".into()),
        category_id: None,
    };
    let (state, _) =
        review_step(&req, review_start(), ReviewEvent::RecordRead(Some(record(AnalysisResultStatus::Pending))));
    let (state, _) = review_step(&req, state, ReviewEvent::FingerprintRead("abc".into()));
    let (_, command) = review_step(&req, state, ReviewEvent::CategoriesRead(Vec::new()));
    assert!(matches!(command, ReviewCommand::ValidateSuggestion { ref filename, .. } if filename == "mine.pdf"));
}

#[test]
fn a_reported_content_change_ends_the_review_without_saving() {
    let req = request(ReviewAction::Accept, None);
    let (state, command) =
        review_step(&req, review_start(), ReviewEvent::RecordRead(Some(record(AnalysisResultStatus::Pending))));
    assert!(matches!(command, ReviewCommand::ReadFingerprint(_)));
    let (state, command) = review_step(&req, state, ReviewEvent::Failed(ReviewError::ContentChanged));
    assert!(matches!(state, ReviewState::Finished));
    assert_eq!(finished(command), Err(ReviewError::ContentChanged));
}
