use std::collections::HashMap;

use coelho::endpoints::{classify_link_url, classify_search_url, library_data_url, subject_lookup_url, volume_search_url};
use coelho::pipeline::{Action, Event, PipelineError, Resolver, Stage};
use coelho::providers::{
    enrich_subjects, project_library_entries, project_volume_search, LibraryEntry, SubjectLookup, VolumeInfo,
    VolumeSearch,
};
use coelho::record::{BasicBookInfo, CanonicalRecord, Classification};

fn info(lccn: Option<&str>) -> BasicBookInfo {
    BasicBookInfo {
        title: "Neuromancer".to_string(),
        author: "Gibson, William".to_string(),
        image: None,
        subjects: vec!["Fiction".to_string()],
        lccn: lccn.map(|s| s.to_string()),
    }
}

fn record(isbn: &str) -> CanonicalRecord {
    CanonicalRecord {
        isbn: isbn.to_string(),
        title: "Neuromancer".to_string(),
        author: "Gibson, William".to_string(),
        image: None,
        classification: None,
        subjects: vec![],
    }
}

#[test]
fn empty_volume_search_yields_nothing() {
    let search = VolumeSearch { total_items: 0, items: vec![] };
    assert!(project_volume_search(search).is_none());
}

#[test]
fn volume_search_projects_first_volume() {
    let v = VolumeInfo {
        title: "Neuromancer".to_string(),
        authors: vec!["William Gibson".to_string()],
        preview_link: Some("http://books.google.com/books?id=x&printsec=frontcover".to_string()),
        thumbnail: None,
        categories: vec!["Fiction".to_string()],
    };
    let b = project_volume_search(VolumeSearch { total_items: 1, items: vec![v] }).unwrap();
    assert_eq!(b.title, "Neuromancer");
    assert_eq!(b.author, "Gibson, William");
    assert_eq!(b.image, Some("https://books.google.com/books?id=x&printsec=frontcover&img=1".to_string()));
    assert_eq!(b.subjects, vec!["Fiction".to_string()]);
    assert!(b.lccn.is_none());
}

#[test]
fn library_entry_projection() {
    let e = LibraryEntry {
        title: "Mirrorshades".to_string(),
        authors: vec![],
        cover_large: Some("http://covers.openlibrary.org/b/id/1-L.jpg".to_string()),
        cover_medium: Some("http://covers.openlibrary.org/b/id/1-M.jpg".to_string()),
        lccn: vec!["86000001".to_string()],
        subjects: vec![],
    };
    let b = project_library_entries(vec![e]).unwrap();
    assert_eq!(b.author, "Unknown");
    assert_eq!(b.image, Some("https://covers.openlibrary.org/b/id/1-L.jpg".to_string()));
    assert_eq!(b.lccn, Some("86000001".to_string()));
    assert!(project_library_entries(vec![]).is_none());
}

#[test]
fn library_entry_falls_back_to_medium_cover() {
    let e = LibraryEntry {
        title: "Mirrorshades".to_string(),
        authors: vec!["Bruce Sterling".to_string()],
        cover_large: None,
        cover_medium: Some("http://covers.openlibrary.org/b/id/1-M.jpg".to_string()),
        lccn: vec![],
        subjects: vec!["Fiction".to_string()],
    };
    let b = project_library_entries(vec![e]).unwrap();
    assert_eq!(b.author, "Sterling, Bruce");
    assert_eq!(b.image, Some("https://covers.openlibrary.org/b/id/1-M.jpg".to_string()));
    assert!(b.lccn.is_none());
}

#[test]
fn zero_hit_enrichment_keeps_primary_subjects() {
    let lookup = SubjectLookup { hits: 0, results: vec![vec!["Cyberpunk".to_string()]] };
    assert_eq!(enrich_subjects(vec!["Fiction".to_string()], Some(lookup)), vec!["Fiction".to_string()]);
}

#[test]
fn empty_enrichment_keeps_primary_subjects() {
    let lookup = SubjectLookup { hits: 3, results: vec![vec![], vec!["Cyberpunk".to_string()]] };
    assert_eq!(enrich_subjects(vec!["Fiction".to_string()], Some(lookup)), vec!["Fiction".to_string()]);
    let lookup = SubjectLookup { hits: 3, results: vec![] };
    assert_eq!(enrich_subjects(vec!["Fiction".to_string()], Some(lookup)), vec!["Fiction".to_string()]);
    assert_eq!(enrich_subjects(vec!["Fiction".to_string()], None), vec!["Fiction".to_string()]);
}

#[test]
fn enrichment_with_hits_overrides_subjects() {
    let lookup = SubjectLookup {
        hits: 2,
        results: vec![vec!["Cyberpunk".to_string()], vec!["Hackers".to_string()]],
    };
    assert_eq!(enrich_subjects(vec!["Fiction".to_string()], Some(lookup)), vec!["Cyberpunk".to_string()]);
}

#[test]
fn urls_embed_their_keys() {
    assert_eq!(volume_search_url("0441569595"), "https://www.googleapis.com/books/v1/volumes?q=isbn:0441569595");
    assert_eq!(
        classify_search_url("0441569595"),
        "http://classify.oclc.org/classify2/ClassifyDemo?search-standnum-txt=0441569595&startRec=0"
    );
    assert_eq!(classify_link_url("/x?y=1"), "http://classify.oclc.org/x?y=1");
    assert_eq!(
        library_data_url("1"),
        "https://openlibrary.org/api/books?bibkeys=ISBN:1&format=json&jscmd=data"
    );
    assert_eq!(subject_lookup_url("2"), "https://www.loc.gov/search/?fa=number_lccn:2&fo=json");
}

#[test]
fn cache_hit_returns_record_without_providers() {
    let mut r = Resolver::new("123".to_string(), 2);
    assert!(matches!(r.first_action(), Action::ReadCache { ref isbn } if isbn == "123"));
    match r.step(Event::CacheRead(Some(record("123")))) {
        Action::Done(Ok((rec, cached))) => {
            assert!(cached);
            assert_eq!(rec.title, "Neuromancer");
        }
        other => panic!("unexpected {:?}", other),
    }
    assert!(matches!(r.stage, Stage::Finished));
}

#[test]
fn providers_are_tried_in_order_then_not_found() {
    let mut r = Resolver::new("123".to_string(), 2);
    assert!(matches!(r.step(Event::CacheRead(None)), Action::QueryPrimary { provider: 0, .. }));
    assert!(matches!(r.step(Event::PrimaryFetched(Ok(None))), Action::QueryPrimary { provider: 1, .. }));
    assert!(matches!(r.step(Event::PrimaryFetched(Ok(None))), Action::Done(Err(PipelineError::NotFound))));
}

#[test]
fn no_providers_is_not_found() {
    let mut r = Resolver::new("123".to_string(), 0);
    assert!(matches!(r.step(Event::CacheRead(None)), Action::Done(Err(PipelineError::NotFound))));
}

#[test]
fn untitled_answer_counts_as_not_found() {
    let mut r = Resolver::new("123".to_string(), 1);
    r.step(Event::CacheRead(None));
    let mut b = info(None);
    b.title = String::new();
    assert!(matches!(r.step(Event::PrimaryFetched(Ok(Some(b)))), Action::Done(Err(PipelineError::NotFound))));
}

#[test]
fn provider_error_names_provider() {
    let mut r = Resolver::new("123".to_string(), 2);
    r.step(Event::CacheRead(None));
    match r.step(Event::PrimaryFetched(Err("timeout".to_string()))) {
        Action::Done(Err(PipelineError::Provider { provider, detail })) => {
            assert_eq!(provider, 0);
            assert_eq!(detail, "timeout");
        }
        other => panic!("unexpected {:?}", other),
    }
}

#[test]
fn full_resolution_with_enrichment() {
    let mut r = Resolver::new("123".to_string(), 1);
    r.step(Event::CacheRead(None));
    assert!(matches!(r.step(Event::PrimaryFetched(Ok(Some(info(Some("86")))))), Action::QueryClassification { .. }));
    let c = Classification { dewey_code: "813".to_string(), subject_tags: vec!["Cyberpunk".to_string()] };
    assert!(matches!(r.step(Event::ClassificationFetched(Some(c))), Action::QuerySubjects { ref lccn } if lccn == "86"));
    let lookup = SubjectLookup { hits: 1, results: vec![vec!["Computer hackers".to_string()]] };
    assert!(matches!(r.step(Event::SubjectsFetched(Some(lookup))), Action::WriteCache { ref isbn } if isbn == "123"));
    let pending = r.pending().unwrap();
    assert_eq!(pending.subjects, vec!["Computer hackers".to_string()]);
    assert_eq!(pending.classification.as_ref().unwrap().dewey_code, "813");
    match r.step(Event::CacheWritten(Ok(()))) {
        Action::Done(Ok((rec, cached))) => {
            assert!(!cached);
            assert_eq!(rec.isbn, "123");
        }
        other => panic!("unexpected {:?}", other),
    }
}

#[test]
fn failed_classification_degrades_and_zero_hits_keep_subjects() {
    let mut r = Resolver::new("123".to_string(), 1);
    r.step(Event::CacheRead(None));
    r.step(Event::PrimaryFetched(Ok(Some(info(Some("86"))))));
    r.step(Event::ClassificationFetched(None));
    r.step(Event::SubjectsFetched(Some(SubjectLookup { hits: 0, results: vec![] })));
    let pending = r.pending().unwrap();
    assert!(pending.classification.is_none());
    assert_eq!(pending.subjects, vec!["Fiction".to_string()]);
}

#[test]
fn cache_write_failure_is_reported_with_record() {
    let mut r = Resolver::new("123".to_string(), 1);
    r.step(Event::CacheRead(None));
    r.step(Event::PrimaryFetched(Ok(Some(info(None)))));
    assert!(matches!(r.step(Event::ClassificationFetched(None)), Action::WriteCache { .. }));
    match r.step(Event::CacheWritten(Err("denied".to_string()))) {
        Action::Done(Err(PipelineError::CacheWrite { record, detail })) => {
            assert_eq!(record.title, "Neuromancer");
            assert_eq!(detail, "denied");
        }
        other => panic!("unexpected {:?}", other),
    }
}

#[test]
fn out_of_order_event_ends_resolution() {
    let mut r = Resolver::new("123".to_string(), 1);
    assert!(matches!(r.step(Event::CacheWritten(Ok(()))), Action::Done(Err(PipelineError::OutOfOrder))));
}

fn run(isbn: &str, cache: &mut HashMap<String, CanonicalRecord>, provider_calls: &mut usize) -> (String, bool) {
    let mut r = Resolver::new(isbn.to_string(), 1);
    let mut action = r.first_action();
    loop {
        let event = match action {
            Action::ReadCache { isbn } => Event::CacheRead(cache.get(&isbn).map(|c| CanonicalRecord {
                isbn: c.isbn.clone(),
                title: c.title.clone(),
                author: c.author.clone(),
                image: c.image.clone(),
                classification: None,
                subjects: c.subjects.clone(),
            })),
            Action::QueryPrimary { .. } => {
                *provider_calls += 1;
                Event::PrimaryFetched(Ok(Some(info(None))))
            }
            Action::QueryClassification { .. } => Event::ClassificationFetched(None),
            Action::QuerySubjects { .. } => Event::SubjectsFetched(None),
            Action::WriteCache { isbn } => {
                let p = r.pending().unwrap();
                let copy = CanonicalRecord {
                    isbn: p.isbn.clone(),
                    title: p.title.clone(),
                    author: p.author.clone(),
                    image: p.image.clone(),
                    classification: None,
                    subjects: p.subjects.clone(),
                };
                cache.insert(isbn, copy);
                Event::CacheWritten(Ok(()))
            }
            Action::Done(res) => {
                let (rec, cached) = res.unwrap();
                return (format!("{:?}", rec), cached);
            }
        };
        action = r.step(event);
    }
}

#[test]
fn resolving_twice_queries_providers_once() {
    let mut cache = HashMap::new();
    let mut calls = 0usize;
    let (first, cached1) = run("123", &mut cache, &mut calls);
    let (second, cached2) = run("123", &mut cache, &mut calls);
    assert!(!cached1);
    assert!(cached2);
    assert_eq!(calls, 1);
    assert_eq!(first, second);
}
