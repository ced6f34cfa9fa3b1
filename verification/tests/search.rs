use user_directory::{
    filter_records, fold_case, occurs_in_any, record_matches, render, Address, Card, Company,
    DirectoryState, FetchFailure, Screen, User, LINK_SCHEME,
};

fn user(id: i32, name: &str, username: &str, email: &str) -> User {
    User {
        id,
        name: name.to_string(),
        username: username.to_string(),
        email: email.to_string(),
        phone: "1-770-736-8031 x56442".to_string(),
        website: "hildegard.org".to_string(),
        address: Address {
            street: "Kulas Light".to_string(),
            suite: "Apt. 556".to_string(),
            city: "Gwenborough".to_string(),
            zipcode: "92998-3874".to_string(),
        },
        company: Company {
            name: "Romaguera-Crona".to_string(),
            catch_phrase: "Multi-layered client-server neural-net".to_string(),
            business_slogan: "harness real-time e-markets".to_string(),
        },
    }
}

fn graham() -> User {
    user(1, "Leanne Graham", "Bret", "Sincere@april.biz")
}

fn howell() -> User {
    user(2, "Ervin Howell", "Antonette", "Shanna@melissa.tv")
}

fn bauch() -> User {
    user(3, "Clementine Bauch", "Samantha", "Nathan@yesenia.net")
}

fn ready_with(records: Vec<User>, term: &str) -> DirectoryState {
    let mut state = DirectoryState::new();
    state.settle(Ok(records));
    state.set_search_term(term.to_string());
    state
}

fn cards_of(screen: Screen) -> Vec<Card> {
    match screen {
        Screen::Grid(cards) => cards,
        Screen::Loading => panic!("the grid was expected"),
    }
}

/// What the filter is to decide, written with the standard library alone.
fn expected_hit(record: &User, term: &str) -> bool {
    let needle = term.to_lowercase();
    record.name.to_lowercase().contains(&needle)
        || record.username.to_lowercase().contains(&needle)
        || record.email.to_lowercase().contains(&needle)
}

#[test]
fn empty_term_shows_the_one_record() {
    let state = ready_with(vec![graham()], "");
    let cards = cards_of(render(&state));
    assert_eq!(cards.len(), 1);
    assert_eq!(cards[0].name, "Leanne Graham");
}

#[test]
fn upper_case_term_finds_the_username() {
    let state = ready_with(vec![graham()], "BRET");
    assert_eq!(state.filtered_records(), vec![&graham()]);
    assert_eq!(cards_of(render(&state)).len(), 1);
}

#[test]
fn unknown_term_shows_no_card() {
    let state = ready_with(vec![graham()], "zzz");
    assert!(state.filtered_records().is_empty());
    assert_eq!(render(&state), Screen::Grid(Vec::new()));
}

#[test]
fn failed_fetch_shows_an_empty_grid() {
    let mut state = DirectoryState::new();
    assert_eq!(render(&state), Screen::Loading);
    state.settle(Err(FetchFailure { detail: "network error".to_string() }));
    assert_eq!(render(&state), Screen::Grid(Vec::new()));
}

#[test]
fn loading_state_shows_the_notice_whatever_the_term() {
    let mut state = DirectoryState::new();
    assert_eq!(render(&state), Screen::Loading);
    state.set_search_term("bret".to_string());
    assert_eq!(render(&state), Screen::Loading);
}

#[test]
fn filter_keeps_exactly_the_records_that_match() {
    let records = vec![graham(), howell(), bauch()];
    let terms = [
        "", "a", "an", "AN", "bret", "BRET", "Graham", "ervin", ".tv", "@", "net", "howell",
        "Samantha", "sam", "zzz", " ", "e", "E ", "leanne graham", "Leanne  Graham",
    ];
    for term in terms {
        let shown = filter_records(&records, term);
        for record in &records {
            assert_eq!(shown.contains(&record), expected_hit(record, term));
        }
        for record in &shown {
            assert!(records.contains(record));
        }
    }
}

#[test]
fn term_finds_by_name_email_or_username() {
    let records = vec![graham(), howell(), bauch()];
    assert_eq!(filter_records(&records, "clementine"), vec![&bauch()]);
    assert_eq!(filter_records(&records, "MELISSA"), vec![&howell()]);
    assert_eq!(filter_records(&records, "bRe"), vec![&graham()]);
}

#[test]
fn term_does_not_search_other_fields() {
    let records = vec![graham()];
    assert!(filter_records(&records, "hildegard").is_empty());
    assert!(filter_records(&records, "770").is_empty());
    assert!(filter_records(&records, "Romaguera").is_empty());
    assert!(filter_records(&records, "Gwenborough").is_empty());
}

#[test]
fn empty_term_returns_all_records_in_fetch_order() {
    let records = vec![bauch(), graham(), howell(), graham()];
    let shown = filter_records(&records, "");
    assert_eq!(shown, vec![&bauch(), &graham(), &howell(), &graham()]);

    let none: Vec<User> = Vec::new();
    assert!(filter_records(&none, "").is_empty());
}

#[test]
fn filter_keeps_the_fetch_order() {
    let records = vec![bauch(), howell(), graham(), howell(), bauch()];
    let shown = filter_records(&records, "yes");
    assert_eq!(shown, vec![&bauch(), &bauch()]);
    let shown = filter_records(&records, "ll");
    assert_eq!(shown, vec![&howell(), &howell()]);
    let shown = filter_records(&records, "an");
    assert_eq!(shown, vec![&bauch(), &howell(), &graham(), &howell(), &bauch()]);
    let ids: Vec<i32> = filter_records(&records, "a@").iter().map(|record| record.id).collect();
    assert_eq!(ids, vec![2, 2]);
}

#[test]
fn term_is_not_trimmed() {
    let records = vec![graham()];
    assert!(filter_records(&records, " bret").is_empty());
    assert!(filter_records(&records, "bret ").is_empty());
    assert_eq!(filter_records(&records, "e g"), vec![&graham()]);
}

#[test]
fn filtering_leaves_the_state_as_it_is() {
    let state = ready_with(vec![graham(), howell()], "Ervin");
    let first = state.filtered_records();
    assert_eq!(first, vec![&howell()]);
    assert_eq!(state.filtered_records(), first);
    assert_eq!(state.records(), &vec![graham(), howell()]);
    assert_eq!(state.search_term(), "Ervin");
}

#[test]
fn changed_term_changes_what_is_visible() {
    let mut state = ready_with(vec![graham(), howell(), bauch()], "");
    assert_eq!(state.filtered_records().len(), 3);
    state.set_search_term("SHANNA".to_string());
    assert_eq!(state.filtered_records(), vec![&howell()]);
    state.set_search_term("zzz".to_string());
    assert!(state.filtered_records().is_empty());
    state.set_search_term(String::new());
    assert_eq!(state.filtered_records().len(), 3);
}

#[test]
fn fold_case_gives_the_lowercase_text() {
    assert_eq!(fold_case("BRET"), "bret");
    assert_eq!(fold_case("Sincere@April.BIZ"), "sincere@april.biz");
    assert_eq!(fold_case("already lower 123"), "already lower 123");
    assert_eq!(fold_case("ÄÖÜ Éa"), "äöü éa");
}

#[test]
fn fold_case_of_the_empty_text_is_empty() {
    assert_eq!(fold_case(""), "");
}

#[test]
fn folded_letters_find_each_other() {
    let records = vec![user(7, "JÜRGEN Ärmel", "jay", "j@example.org")];
    assert_eq!(filter_records(&records, "jürgen ä").len(), 1);
    assert_eq!(filter_records(&records, "ÄRMEL").len(), 1);
    assert!(filter_records(&records, "jurgen").is_empty());
}

#[test]
fn occurs_in_any_compares_the_texts_as_given() {
    assert!(occurs_in_any("ret", "Leanne Graham", "Sincere@april.biz", "Bret"));
    assert!(occurs_in_any("Graham", "Leanne Graham", "Sincere@april.biz", "Bret"));
    assert!(occurs_in_any("@april", "Leanne Graham", "Sincere@april.biz", "Bret"));
    assert!(!occurs_in_any("BRET", "Leanne Graham", "Sincere@april.biz", "Bret"));
    assert!(!occurs_in_any("Brett", "Leanne Graham", "Sincere@april.biz", "Bret"));
    assert!(!occurs_in_any("a", "", "", ""));
}

#[test]
fn empty_needle_occurs_everywhere() {
    assert!(occurs_in_any("", "", "", ""));
    assert!(occurs_in_any("", "name", "email", "username"));
}

#[test]
fn record_matches_folds_the_record_only() {
    assert!(record_matches(&graham(), "bret"));
    assert!(record_matches(&graham(), "leanne"));
    assert!(record_matches(&graham(), "sincere@"));
    assert!(!record_matches(&graham(), "BRET"));
    assert!(!record_matches(&graham(), "ervin"));
    assert!(record_matches(&graham(), ""));
}

#[test]
fn card_holds_the_texts_of_the_record() {
    let card = Card::from_user(&graham());
    assert_eq!(
        card,
        Card {
            name: "Leanne Graham".to_string(),
            username: "Bret".to_string(),
            email: "Sincere@april.biz".to_string(),
            company: "Romaguera-Crona".to_string(),
            phone: "1-770-736-8031 x56442".to_string(),
            website: "hildegard.org".to_string(),
            link: "https://hildegard.org".to_string(),
        }
    );
}

#[test]
fn link_is_the_website_behind_the_scheme() {
    assert_eq!(LINK_SCHEME, "https://");
    let mut record = graham();
    record.website = String::new();
    assert_eq!(Card::from_user(&record).link, "https://");
    record.website = "http://already.example".to_string();
    assert_eq!(Card::from_user(&record).link, "https://http://already.example");
}

#[test]
fn grid_has_one_card_for_each_visible_record_in_order() {
    let state = ready_with(vec![graham(), howell(), bauch()], "an");
    let cards = cards_of(render(&state));
    let names: Vec<&str> = cards.iter().map(|card| card.name.as_str()).collect();
    assert_eq!(names, vec!["Leanne Graham", "Ervin Howell", "Clementine Bauch"]);

    let state = ready_with(vec![graham(), howell(), bauch()], "tv");
    assert_eq!(cards_of(render(&state)), vec![Card::from_user(&howell())]);
}
