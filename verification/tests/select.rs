use novel_search::error::{exit_code, ErrorKind};
use novel_search::query::{name_search_url, subject_listing_url, Query, DEFAULT_LIMIT};
use novel_search::select::{
    advance, advance_random, on_listing, on_records, pick_index, random_title, select_title,
    Action, Event, Stage,
};

const RULE: &str = "--------------------------------------------------";

fn titles(items: &[&str]) -> Vec<String> {
    items.iter().map(|t| t.to_string()).collect()
}

fn get_url(action: &Action) -> String {
    match action {
        Action::Get { url, .. } => url.clone(),
        other => panic!("expected a request, got {:?}", other),
    }
}

fn failure(action: &Action) -> ErrorKind {
    match action {
        Action::Fail(e) => *e,
        other => panic!("expected a failure, got {:?}", other),
    }
}

#[test]
fn name_query_url() {
    let q = Query::NameSearch { text: "Dune".to_string(), limit: 1 };
    assert_eq!(q.url_with(0, 0), "https://openlibrary.org/search.json?title=Dune&limit=1");
    assert_eq!(q.url(), "https://openlibrary.org/search.json?title=Dune&limit=1");
    assert_eq!(name_search_url("The Hobbit", 25), "https://openlibrary.org/search.json?title=The Hobbit&limit=25");
}

#[test]
fn isbn_query_url_passes_isbn_verbatim() {
    let q = Query::IsbnSearch { isbn: "not-an-ISBN".to_string() };
    assert_eq!(q.url(), "https://openlibrary.org/api/volumes/brief/isbn/not-an-ISBN.json");
}

#[test]
fn subject_query_url_is_lowercased() {
    let q = Query::SubjectSearch { subject: "Science FICTION".to_string(), limit: DEFAULT_LIMIT };
    assert_eq!(q.url(), "https://openlibrary.org/subjects/science fiction.json?limit=2");
    assert_eq!(subject_listing_url("Fantasy", 3), "https://openlibrary.org/subjects/Fantasy.json?limit=3");
}

#[test]
fn genre_query_url_is_verbatim_with_page() {
    let q = Query::RandomGenre { genre: "Horror".to_string() };
    assert_eq!(q.url_with(17, 255), "https://openlibrary.org/subjects/Horror.json?limit=17&offset=255");
    assert_eq!(q.url_with(0, 0), "https://openlibrary.org/subjects/Horror.json?limit=0&offset=0");
}

#[test]
fn genre_query_url_draws_within_a_byte() {
    let q = Query::RandomGenre { genre: "horror".to_string() };
    for _ in 0..50 {
        let url = q.url();
        let rest = url.strip_prefix("https://openlibrary.org/subjects/horror.json?limit=").unwrap();
        let (limit, offset) = rest.split_once("&offset=").unwrap();
        assert!(limit.parse::<u32>().unwrap() <= 255);
        assert!(offset.parse::<u32>().unwrap() <= 255);
    }
}

#[test]
fn queries_with_zero_limit_are_not_well_formed() {
    assert!(Query::NameSearch { text: "x".to_string(), limit: 2 }.is_well_formed());
    assert!(!Query::NameSearch { text: "x".to_string(), limit: 0 }.is_well_formed());
    assert!(!Query::SubjectSearch { subject: "x".to_string(), limit: 0 }.is_well_formed());
    assert!(Query::IsbnSearch { isbn: "x".to_string() }.is_well_formed());
    assert!(Query::RandomGenre { genre: "x".to_string() }.is_well_formed());
}

#[test]
fn failure_messages_name_the_query() {
    assert_eq!(
        Query::NameSearch { text: "Dune".to_string(), limit: 1 }.failure_message(),
        "No books found with the name: Dune"
    );
    assert_eq!(
        Query::IsbnSearch { isbn: "123".to_string() }.failure_message(),
        "No books found with the ISBN: 123"
    );
    assert_eq!(
        Query::SubjectSearch { subject: "Fantasy".to_string(), limit: 1 }.failure_message(),
        "No books found with the subject: Fantasy"
    );
    assert_eq!(
        Query::RandomGenre { genre: "horror".to_string() }.failure_message(),
        "No books found with the genre: horror"
    );
}

#[test]
fn pick_index_is_draw_modulo_length() {
    assert_eq!(pick_index(0, 3), Ok(0));
    assert_eq!(pick_index(7, 3), Ok(1));
    assert_eq!(pick_index(u32::MAX, 10), Ok(5));
    assert_eq!(pick_index(12345, 1), Ok(0));
    assert_eq!(pick_index(12345, 0), Err(ErrorKind::NoResults));
}

#[test]
fn select_title_by_draw() {
    let listing = titles(&["A", "B", "C"]);
    assert_eq!(select_title(&listing, 4), Ok("B".to_string()));
    assert_eq!(select_title(&listing, 5), Ok("C".to_string()));
    assert_eq!(select_title(&vec![], 5), Err(ErrorKind::NoResults));
}

#[test]
fn random_title_of_one_is_that_one() {
    let listing = titles(&["Only"]);
    for _ in 0..20 {
        assert_eq!(random_title(&listing), Ok("Only".to_string()));
    }
}

#[test]
fn random_title_of_none_is_no_results() {
    assert_eq!(random_title(&vec![]), Err(ErrorKind::NoResults));
}

#[test]
fn random_title_is_one_of_the_listing() {
    let listing = titles(&["A", "B", "C"]);
    for _ in 0..50 {
        let t = random_title(&listing).unwrap();
        assert!(listing.contains(&t));
    }
}

#[test]
fn example_random_with_empty_listing() {
    let event = Event::Body("{\"name\": \"horror\", \"works\": []}".to_string());
    let (stage, action) = advance(Stage::AwaitingListing, &event, 99);
    assert_eq!(stage, Stage::Finished);
    assert_eq!(failure(&action), ErrorKind::NoResults);
    assert_eq!(exit_code(Some(failure(&action))), 1);
    let (stage, action) = advance_random(Stage::AwaitingListing, &event);
    assert_eq!(stage, Stage::Finished);
    assert_eq!(failure(&action), ErrorKind::NoResults);
}

#[test]
fn random_flow_from_listing_to_print() {
    let listing = Event::Body("{\"works\": [{\"title\": \"It\"}, {\"title\": \"Carrie\"}]}".to_string());
    let (stage, action) = advance(Stage::AwaitingListing, &listing, 3);
    assert_eq!(stage, Stage::AwaitingRecord);
    assert_eq!(get_url(&action), "https://openlibrary.org/search.json?title=Carrie&limit=1");
    let found = Event::Body(
        "{\"docs\": [{\"title\": \"Carrie\", \"author_name\": [\"Stephen King\"], \
         \"key\": \"/works/OL81632W\"}]}"
            .to_string(),
    );
    let (stage, action) = advance(stage, &found, 0);
    assert_eq!(stage, Stage::Finished);
    let expected = format!(
        "Found 1 books\n{r}\n{r}\nTitle: Carrie\nAuthor: Stephen King\nISBN: Unknown\n\
         URL: https://openlibrary.org/works/OL81632W\n{r}\n{r}\n",
        r = RULE
    );
    match action {
        Action::Print(text) => assert_eq!(text, expected),
        other => panic!("expected a text, got {:?}", other),
    }
}

#[test]
fn random_flow_names_the_title_searched() {
    let listing = Event::Body("{\"works\": [{\"title\": \"It\"}, {\"title\": \"Carrie\"}]}".to_string());
    let (_, action) = advance(Stage::AwaitingListing, &listing, 2);
    match action {
        Action::Get { title, url } => {
            assert_eq!(title, "It");
            assert_eq!(url, "https://openlibrary.org/search.json?title=It&limit=1");
        }
        other => panic!("expected a request, got {:?}", other),
    }
}

#[test]
fn random_flow_counts_works_with_empty_title() {
    let listing = Event::Body(
        "{\"works\": [{\"title\": \"\"}, {\"title\": \"A\"}, {\"title\": \"B\"}]}".to_string(),
    );
    let (stage, action) = advance(Stage::AwaitingListing, &listing, 1);
    assert_eq!(stage, Stage::AwaitingRecord);
    assert_eq!(get_url(&action), "https://openlibrary.org/search.json?title=A&limit=1");
    let single = Event::Body("{\"works\": [{\"title\": \"\"}]}".to_string());
    let (stage, action) = advance(Stage::AwaitingListing, &single, 7);
    assert_eq!(stage, Stage::AwaitingRecord);
    assert_eq!(get_url(&action), "https://openlibrary.org/search.json?title=&limit=1");
}

#[test]
fn random_flow_with_single_title_needs_no_luck() {
    let listing = Event::Body("{\"works\": [{\"title\": \"It\"}]}".to_string());
    for _ in 0..20 {
        let (stage, action) = advance_random(Stage::AwaitingListing, &listing);
        assert_eq!(stage, Stage::AwaitingRecord);
        assert_eq!(get_url(&action), "https://openlibrary.org/search.json?title=It&limit=1");
    }
}

#[test]
fn random_flow_fails_on_transport_and_parse() {
    let (stage, action) = advance(Stage::AwaitingListing, &Event::TransportFailed, 0);
    assert_eq!(stage, Stage::Finished);
    assert_eq!(failure(&action), ErrorKind::Transport);
    let (_, action) = advance(Stage::AwaitingRecord, &Event::TransportFailed, 0);
    assert_eq!(failure(&action), ErrorKind::Transport);
    let (_, action) = advance(Stage::AwaitingListing, &Event::Body("<html>".to_string()), 0);
    assert_eq!(failure(&action), ErrorKind::Parse);
    let (_, action) = advance(Stage::AwaitingRecord, &Event::Body("{}".to_string()), 0);
    assert_eq!(failure(&action), ErrorKind::Parse);
}

#[test]
fn random_flow_second_search_without_records() {
    let (stage, action) = advance(Stage::AwaitingRecord, &Event::Body("{\"docs\": []}".to_string()), 0);
    assert_eq!(stage, Stage::Finished);
    assert_eq!(failure(&action), ErrorKind::NoResults);
    let (_, action) = on_records(Ok(vec![]));
    assert_eq!(failure(&action), ErrorKind::NoResults);
    let (_, action) = on_records(Err(ErrorKind::Parse));
    assert_eq!(failure(&action), ErrorKind::Parse);
}

#[test]
fn finished_flow_stays_finished() {
    let (stage, action) = advance(Stage::Finished, &Event::Body("{}".to_string()), 0);
    assert_eq!(stage, Stage::Finished);
    assert!(matches!(action, Action::Idle));
}

#[test]
fn on_listing_steps() {
    let (stage, action) = on_listing(Ok(titles(&["A", "B"])), 2);
    assert_eq!(stage, Stage::AwaitingRecord);
    assert_eq!(get_url(&action), "https://openlibrary.org/search.json?title=A&limit=1");
    let (stage, action) = on_listing(Err(ErrorKind::Parse), 2);
    assert_eq!(stage, Stage::Finished);
    assert_eq!(failure(&action), ErrorKind::Parse);
}
