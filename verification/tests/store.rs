use movie_review::{Identity, MovieAccountState, MovieReviewError, ReviewStore};

fn alice() -> Identity {
    Identity { bytes: [1u8; 32] }
}

fn bob() -> Identity {
    let mut bytes = [1u8; 32];
    bytes[31] = 2;
    Identity { bytes }
}

fn text(s: &str) -> String {
    String::from(s)
}

#[test]
fn create_update_delete_dune() {
    let mut store = ReviewStore::new();

    let created = store.create(alice(), text("Dune"), text("Great sci-fi"), 5).unwrap();
    assert_eq!(
        created,
        MovieAccountState {
            reviewer: alice(),
            rating: 5,
            title: text("Dune"),
            description: text("Great sci-fi"),
        }
    );
    assert_eq!(store.lookup(&alice(), "Dune"), Ok(&created));

    let updated = store.update(alice(), text("Dune"), text("Great sci-fi epic"), 4).unwrap();
    assert_eq!(updated.description, "Great sci-fi epic");
    assert_eq!(updated.rating, 4);
    let stored = store.lookup(&alice(), "Dune").unwrap();
    assert_eq!(stored.description, "Great sci-fi epic");
    assert_eq!(stored.rating, 4);
    assert_eq!(stored.title, "Dune");
    assert_eq!(stored.reviewer, alice());

    assert_eq!(store.delete(alice(), text("Dune")), Ok(()));
    assert_eq!(store.lookup(&alice(), "Dune"), Err(MovieReviewError::NotFound));
    assert_eq!(
        store.update(alice(), text("Dune"), text("Again"), 3),
        Err(MovieReviewError::NotFound)
    );
    assert_eq!(store.delete(alice(), text("Dune")), Err(MovieReviewError::NotFound));
}

#[test]
fn created_review_is_found_with_its_fields() {
    let mut store = ReviewStore::new();
    store.create(bob(), text("Alien"), text(""), 1).unwrap();
    store.create(alice(), text("Heat"), text("Tense and long"), 3).unwrap();

    let found = store.lookup(&alice(), "Heat").unwrap();
    assert_eq!(found.reviewer, alice());
    assert_eq!(found.title, "Heat");
    assert_eq!(found.description, "Tense and long");
    assert_eq!(found.rating, 3);

    let other = store.lookup(&bob(), "Alien").unwrap();
    assert_eq!(other.reviewer, bob());
    assert_eq!(other.description, "");
    assert_eq!(other.rating, 1);
}

#[test]
fn create_on_occupied_key_is_refused_and_changes_nothing() {
    let mut store = ReviewStore::new();
    store.create(alice(), text("Dune"), text("Great sci-fi"), 5).unwrap();

    assert_eq!(
        store.create(alice(), text("Dune"), text("Second thoughts"), 2),
        Err(MovieReviewError::AlreadyExists)
    );
    let stored = store.lookup(&alice(), "Dune").unwrap();
    assert_eq!(stored.description, "Great sci-fi");
    assert_eq!(stored.rating, 5);
    assert_eq!(store.reserved_space(&alice(), "Dune"), 119);
}

#[test]
fn occupied_key_is_refused_before_the_fields_are_checked() {
    let mut store = ReviewStore::new();
    store.create(alice(), text("Dune"), text("Great sci-fi"), 5).unwrap();

    assert_eq!(
        store.create(alice(), text("Dune"), text("x"), 0),
        Err(MovieReviewError::AlreadyExists)
    );
    assert_eq!(
        store.create(alice(), text("Dune"), "d".repeat(51), 6),
        Err(MovieReviewError::AlreadyExists)
    );
}

#[test]
fn same_title_by_another_reviewer_is_another_review() {
    let mut store = ReviewStore::new();
    store.create(alice(), text("Dune"), text("Great sci-fi"), 5).unwrap();
    store.create(bob(), text("Dune"), text("Too much sand"), 2).unwrap();

    assert_eq!(store.lookup(&alice(), "Dune").unwrap().rating, 5);
    assert_eq!(store.lookup(&bob(), "Dune").unwrap().rating, 2);

    store.delete(alice(), text("Dune")).unwrap();
    assert_eq!(store.lookup(&alice(), "Dune"), Err(MovieReviewError::NotFound));
    assert_eq!(store.lookup(&bob(), "Dune").unwrap().description, "Too much sand");
}

#[test]
fn another_title_by_the_same_reviewer_is_another_review() {
    let mut store = ReviewStore::new();
    store.create(alice(), text("Dune"), text("Great sci-fi"), 5).unwrap();
    store.create(alice(), text("Dune 2"), text("More of it"), 4).unwrap();
    store.create(alice(), text("dune"), text("Lower case"), 3).unwrap();

    store.update(alice(), text("Dune 2"), text("Even more of it"), 5).unwrap();

    assert_eq!(store.lookup(&alice(), "Dune").unwrap().description, "Great sci-fi");
    assert_eq!(store.lookup(&alice(), "Dune 2").unwrap().description, "Even more of it");
    assert_eq!(store.lookup(&alice(), "dune").unwrap().rating, 3);
    assert_eq!(store.lookup(&alice(), "Dun"), Err(MovieReviewError::NotFound));
}

#[test]
fn rating_out_of_range_is_refused() {
    let mut store = ReviewStore::new();
    assert_eq!(
        store.create(alice(), text("Zero"), text("d"), 0),
        Err(MovieReviewError::InvalidRating)
    );
    assert_eq!(
        store.create(alice(), text("Six"), text("d"), 6),
        Err(MovieReviewError::InvalidRating)
    );
    assert_eq!(
        store.create(alice(), text("Max"), text("d"), 255),
        Err(MovieReviewError::InvalidRating)
    );
    assert_eq!(store.lookup(&alice(), "Zero"), Err(MovieReviewError::NotFound));
    assert_eq!(store.lookup(&alice(), "Six"), Err(MovieReviewError::NotFound));
    assert_eq!(store.reserved_space(&alice(), "Zero"), 0);
}

#[test]
fn rating_at_the_bounds_is_accepted() {
    let mut store = ReviewStore::new();
    assert_eq!(store.create(alice(), text("One"), text("d"), 1).unwrap().rating, 1);
    assert_eq!(store.create(alice(), text("Five"), text("d"), 5).unwrap().rating, 5);
    assert_eq!(store.lookup(&alice(), "One").unwrap().rating, 1);
    assert_eq!(store.lookup(&alice(), "Five").unwrap().rating, 5);
}

#[test]
fn title_of_21_bytes_is_refused_and_of_20_accepted() {
    let mut store = ReviewStore::new();
    let long = "t".repeat(21);
    let fits = "t".repeat(20);
    assert_eq!(
        store.create(alice(), long.clone(), text("d"), 3),
        Err(MovieReviewError::TitleTooLong)
    );
    assert_eq!(store.lookup(&alice(), &long), Err(MovieReviewError::NotFound));
    assert_eq!(store.create(alice(), fits.clone(), text("d"), 3).unwrap().title, fits);
    assert_eq!(store.lookup(&alice(), &fits).unwrap().title, fits);
}

#[test]
fn description_of_51_bytes_is_refused_and_of_50_accepted() {
    let mut store = ReviewStore::new();
    let long = "d".repeat(51);
    let fits = "d".repeat(50);
    assert_eq!(
        store.create(alice(), text("Long"), long, 3),
        Err(MovieReviewError::DescriptionTooLong)
    );
    assert_eq!(store.lookup(&alice(), "Long"), Err(MovieReviewError::NotFound));
    assert_eq!(store.create(alice(), text("Fits"), fits.clone(), 3).unwrap().description, fits);
}

#[test]
fn lengths_are_counted_in_bytes() {
    let mut store = ReviewStore::new();
    // Seven characters of three bytes each: 21 bytes.
    let long = "\u{6620}".repeat(7);
    assert_eq!(long.chars().count(), 7);
    assert_eq!(
        store.create(alice(), long, text("d"), 3),
        Err(MovieReviewError::TitleTooLong)
    );
    // Ten characters of two bytes each: 20 bytes.
    let fits = "\u{e9}".repeat(10);
    assert!(store.create(alice(), fits.clone(), text("d"), 3).is_ok());
    assert_eq!(store.lookup(&alice(), &fits).unwrap().title, fits);
    // Seventeen characters of three bytes each: 51 bytes.
    assert_eq!(
        store.create(alice(), text("Film"), "\u{6620}".repeat(17), 3),
        Err(MovieReviewError::DescriptionTooLong)
    );
}

#[test]
fn first_failing_check_names_the_refusal() {
    let mut store = ReviewStore::new();
    assert_eq!(
        store.create(alice(), "t".repeat(21), "d".repeat(51), 0),
        Err(MovieReviewError::InvalidRating)
    );
    assert_eq!(
        store.create(alice(), "t".repeat(21), "d".repeat(51), 3),
        Err(MovieReviewError::TitleTooLong)
    );
    assert_eq!(
        store.create(alice(), "t".repeat(20), "d".repeat(51), 3),
        Err(MovieReviewError::DescriptionTooLong)
    );
}

#[test]
fn empty_title_is_accepted() {
    let mut store = ReviewStore::new();
    assert!(store.create(alice(), text(""), text("Untitled"), 2).is_ok());
    assert_eq!(store.lookup(&alice(), "").unwrap().description, "Untitled");
    assert_eq!(
        store.create(alice(), text(""), text("Again"), 2),
        Err(MovieReviewError::AlreadyExists)
    );
}

#[test]
fn update_of_missing_review_is_refused_and_creates_nothing() {
    let mut store = ReviewStore::new();
    store.create(bob(), text("Dune"), text("Too much sand"), 2).unwrap();

    assert_eq!(
        store.update(alice(), text("Dune"), text("Great sci-fi"), 5),
        Err(MovieReviewError::NotFound)
    );
    assert_eq!(store.lookup(&alice(), "Dune"), Err(MovieReviewError::NotFound));
    assert_eq!(store.reserved_space(&alice(), "Dune"), 0);
    assert_eq!(store.lookup(&bob(), "Dune").unwrap().description, "Too much sand");
}

#[test]
fn update_changes_rating_and_description_only() {
    let mut store = ReviewStore::new();
    store.create(alice(), text("Dune"), text("Great sci-fi"), 5).unwrap();
    store.create(bob(), text("Dune"), text("Too much sand"), 2).unwrap();

    let updated = store.update(alice(), text("Dune"), text("Worse on rewatch"), 2).unwrap();
    assert_eq!(
        updated,
        MovieAccountState {
            reviewer: alice(),
            rating: 2,
            title: text("Dune"),
            description: text("Worse on rewatch"),
        }
    );
    assert_eq!(store.lookup(&alice(), "Dune"), Ok(&updated));
    let other = store.lookup(&bob(), "Dune").unwrap();
    assert_eq!(other.description, "Too much sand");
    assert_eq!(other.rating, 2);
    assert_eq!(store.reserved_space(&bob(), "Dune"), 119);
}

#[test]
fn update_does_not_check_rating_or_length() {
    let mut store = ReviewStore::new();
    store.create(alice(), text("Dune"), text("Great sci-fi"), 5).unwrap();

    let long = "d".repeat(300);
    let updated = store.update(alice(), text("Dune"), long.clone(), 0).unwrap();
    assert_eq!(updated.rating, 0);
    assert_eq!(updated.description, long);

    let updated = store.update(alice(), text("Dune"), text(""), 200).unwrap();
    assert_eq!(updated.rating, 200);
    assert_eq!(store.lookup(&alice(), "Dune").unwrap().rating, 200);
    assert_eq!(store.lookup(&alice(), "Dune").unwrap().description, "");
}

#[test]
fn delete_of_missing_review_is_refused() {
    let mut store = ReviewStore::new();
    assert_eq!(store.delete(alice(), text("Dune")), Err(MovieReviewError::NotFound));
    store.create(alice(), text("Dune"), text("Great sci-fi"), 5).unwrap();
    assert_eq!(store.delete(bob(), text("Dune")), Err(MovieReviewError::NotFound));
    assert_eq!(store.delete(alice(), text("Dune 2")), Err(MovieReviewError::NotFound));
    assert_eq!(store.lookup(&alice(), "Dune").unwrap().rating, 5);
}

#[test]
fn delete_removes_the_review_and_releases_its_space() {
    let mut store = ReviewStore::new();
    store.create(alice(), text("Alien"), text("In space"), 5).unwrap();
    store.create(alice(), text("Dune"), text("Great sci-fi"), 5).unwrap();
    store.create(alice(), text("Heat"), text("Tense"), 4).unwrap();
    assert_eq!(store.reserved_space(&alice(), "Dune"), 119);

    assert_eq!(store.delete(alice(), text("Dune")), Ok(()));

    assert_eq!(store.lookup(&alice(), "Dune"), Err(MovieReviewError::NotFound));
    assert_eq!(store.reserved_space(&alice(), "Dune"), 0);
    assert_eq!(store.lookup(&alice(), "Alien").unwrap().description, "In space");
    assert_eq!(store.lookup(&alice(), "Heat").unwrap().description, "Tense");
    assert_eq!(store.reserved_space(&alice(), "Alien"), 119);
    assert_eq!(store.reserved_space(&alice(), "Heat"), 119);
}

#[test]
fn deleted_review_can_be_created_again() {
    let mut store = ReviewStore::new();
    store.create(alice(), text("Dune"), text("Great sci-fi"), 5).unwrap();
    store.delete(alice(), text("Dune")).unwrap();
    let again = store.create(alice(), text("Dune"), text("Second viewing"), 3).unwrap();
    assert_eq!(again.description, "Second viewing");
    assert_eq!(store.lookup(&alice(), "Dune").unwrap().rating, 3);
}

#[test]
fn space_is_reserved_for_the_longest_fields_at_creation() {
    let mut store = ReviewStore::new();
    store.create(alice(), text("A"), text(""), 1).unwrap();
    store.create(alice(), "t".repeat(20), "d".repeat(50), 5).unwrap();
    // 8 + 32 + 1 + (4 + 20) + (4 + 50)
    assert_eq!(store.reserved_space(&alice(), "A"), 119);
    assert_eq!(store.reserved_space(&alice(), &"t".repeat(20)), 119);
}

#[test]
fn space_is_fitted_to_the_description_by_an_update() {
    let mut store = ReviewStore::new();
    store.create(alice(), text("Dune"), text("Great sci-fi"), 5).unwrap();

    store.update(alice(), text("Dune"), text("Great sci-fi epic"), 4).unwrap();
    // 8 + 32 + 1 + (4 + 20) + 4 + 17
    assert_eq!(store.reserved_space(&alice(), "Dune"), 86);

    store.update(alice(), text("Dune"), text(""), 4).unwrap();
    assert_eq!(store.reserved_space(&alice(), "Dune"), 69);

    store.update(alice(), text("Dune"), "d".repeat(50), 4).unwrap();
    assert_eq!(store.reserved_space(&alice(), "Dune"), 119);

    store.update(alice(), text("Dune"), "d".repeat(200), 4).unwrap();
    assert_eq!(store.reserved_space(&alice(), "Dune"), 269);

    // Two bytes for each character.
    store.update(alice(), text("Dune"), "\u{e9}".repeat(5), 4).unwrap();
    assert_eq!(store.reserved_space(&alice(), "Dune"), 79);
}

#[test]
fn new_store_holds_nothing() {
    let store = ReviewStore::new();
    assert_eq!(store.lookup(&alice(), "Dune"), Err(MovieReviewError::NotFound));
    assert_eq!(store.lookup(&alice(), ""), Err(MovieReviewError::NotFound));
    assert_eq!(store.reserved_space(&alice(), "Dune"), 0);
}

fn packed_len(review: &MovieAccountState) -> u128 {
    (8 + 32 + 1 + 4 + review.title.len() + 4 + review.description.len()) as u128
}

#[test]
fn every_review_fits_its_space() {
    let mut store = ReviewStore::new();
    store.create(alice(), text(""), text(""), 1).unwrap();
    store.create(alice(), "t".repeat(20), "d".repeat(50), 5).unwrap();
    store.create(bob(), "\u{e9}".repeat(10), text("short"), 3).unwrap();
    store.update(bob(), "\u{e9}".repeat(10), "d".repeat(120), 3).unwrap();
    store.update(alice(), text(""), text("x"), 1).unwrap();

    for (who, title) in [(alice(), String::new()), (alice(), "t".repeat(20)), (bob(), "\u{e9}".repeat(10))] {
        let review = store.lookup(&who, &title).unwrap();
        assert!(packed_len(review) <= store.reserved_space(&who, &title));
    }
    // A title at its limit leaves nothing over once the space is fitted.
    store.update(alice(), "t".repeat(20), text("exact"), 2).unwrap();
    let review = store.lookup(&alice(), &"t".repeat(20)).unwrap();
    assert_eq!(packed_len(review), store.reserved_space(&alice(), &"t".repeat(20)));
}

#[test]
fn create_then_delete_leaves_the_others() {
    let mut store = ReviewStore::new();
    store.create(alice(), text("Alien"), text("In space"), 5).unwrap();
    store.create(bob(), text("Dune"), text("Too much sand"), 2).unwrap();

    store.create(alice(), text("Dune"), text("Great sci-fi"), 5).unwrap();
    store.delete(alice(), text("Dune")).unwrap();

    assert_eq!(store.lookup(&alice(), "Dune"), Err(MovieReviewError::NotFound));
    assert_eq!(store.lookup(&alice(), "Alien").unwrap().description, "In space");
    assert_eq!(store.lookup(&bob(), "Dune").unwrap().description, "Too much sand");
    assert_eq!(store.reserved_space(&alice(), "Alien"), 119);
    assert_eq!(store.reserved_space(&bob(), "Dune"), 119);
}
