use mudoc::document::{clamp_page_range, link_target, HandleLifecycle};
use mudoc::error::{check_c_str, engine_error, Error};
use mudoc::metadata::{metadata_value, MetadataName};
use mudoc::page_iter::PageIter;

#[test]
fn metadata_keys_are_the_fixed_native_keys() {
    assert_eq!(MetadataName::Format.to_str(), "format");
    assert_eq!(MetadataName::Encryption.to_str(), "encryption");
    assert_eq!(MetadataName::Author.to_str(), "info:Author");
    assert_eq!(MetadataName::Title.to_str(), "info::Title");
    assert_eq!(MetadataName::Producer.to_str(), "info:Producer");
    assert_eq!(MetadataName::Creator.to_str(), "info:Creator");
    assert_eq!(MetadataName::CreationDate.to_str(), "info:CreationDate");
    assert_eq!(MetadataName::ModDate.to_str(), "info:ModDate");
    assert_eq!(MetadataName::Subject.to_str(), "info:Subject");
    assert_eq!(MetadataName::Keywords.to_str(), "info:Keywords");
}

#[test]
fn absent_metadata_resolves_to_empty_not_failure() {
    assert_eq!(metadata_value(None), "");
    assert_eq!(metadata_value(Some(String::from("PDF 1.4"))), "PDF 1.4");
}

#[test]
fn clamp_start_past_last_page() {
    // A document with 4 pages: a start past the last page clamps to it.
    assert_eq!(clamp_page_range(4 + 5, 0, 4), (3, 0));
    assert_eq!(clamp_page_range(4, 0, 4), (3, 0));
}

#[test]
fn clamp_end_negative_or_past_last_page() {
    assert_eq!(clamp_page_range(0, -1, 4), (0, 3));
    assert_eq!(clamp_page_range(0, 4 + 5, 4), (0, 3));
    assert_eq!(clamp_page_range(0, 4, 4), (0, 3));
}

#[test]
fn clamp_negative_start_passes_through() {
    // The asymmetry: a negative start is not corrected.
    assert_eq!(clamp_page_range(-1, 2, 4), (-1, 2));
    assert_eq!(clamp_page_range(-7, 2, 4), (-7, 2));
}

#[test]
fn clamp_in_range_bounds_unchanged() {
    assert_eq!(clamp_page_range(1, 2, 4), (1, 2));
    assert_eq!(clamp_page_range(0, 0, 1), (0, 0));
    assert_eq!(clamp_page_range(3, 3, 4), (3, 3));
}

#[test]
fn clamp_empty_document() {
    assert_eq!(clamp_page_range(0, 0, 0), (-1, -1));
}

#[test]
fn finalize_releases_exactly_once() {
    let mut state = HandleLifecycle::acquired();
    assert!(state.finalize());
    assert!(!state.finalize());
    assert!(!state.finalize());
}

#[test]
fn finalize_without_attached_resource_releases_nothing() {
    let mut state = HandleLifecycle {
        attached: false,
        released: false,
    };
    assert!(!state.finalize());
    assert!(!state.finalize());
}

#[test]
fn repeated_acquire_finalize_cycles_release_once_each() {
    let mut releases: u32 = 0;
    for _ in 0..100 {
        let mut state = HandleLifecycle::acquired();
        if state.finalize() {
            releases += 1;
        }
        if state.finalize() {
            releases += 1;
        }
    }
    assert_eq!(releases, 100);
}

#[test]
fn iterator_yields_each_index_once_then_exhausts() {
    let mut it = PageIter::new(3);
    assert_eq!(it.next_index(), Some(0));
    assert_eq!(it.next_index(), Some(1));
    assert_eq!(it.next_index(), Some(2));
    assert_eq!(it.next_index(), None);
    assert_eq!(it.next_index(), None);
}

#[test]
fn single_page_iteration_yields_exactly_one_element() {
    let mut it = PageIter::new(1);
    assert_eq!(it.next_index(), Some(0));
    assert_eq!(it.next_index(), None);
}

#[test]
fn empty_document_iteration_yields_nothing() {
    let mut it = PageIter::new(0);
    assert_eq!(it.next_index(), None);
}

#[test]
fn fresh_iterator_restarts_after_exhausting_another() {
    let total = 3;
    let mut first = PageIter::new(total);
    let mut first_run = Vec::new();
    while let Some(i) = first.next_index() {
        first_run.push(i);
    }
    assert_eq!(first.next_index(), None);

    let mut second = PageIter::new(total);
    assert_eq!(second.index, 0);
    let mut second_run = Vec::new();
    while let Some(i) = second.next_index() {
        second_run.push(i);
    }
    assert_eq!(first_run, vec![0, 1, 2]);
    assert_eq!(second_run, first_run);
}

#[test]
fn link_resolution_negative_target_is_soft_absence() {
    assert_eq!(link_target(-1), None);
    assert_eq!(link_target(-100), None);
    assert_eq!(link_target(0), Some(0));
    assert_eq!(link_target(12), Some(12));
}

#[test]
fn embedded_terminator_is_invalid_input() {
    assert!(matches!(check_c_str("with\0inside"), Err(Error::InvalidInput)));
    assert!(matches!(check_c_str("\0"), Err(Error::InvalidInput)));
}

#[test]
fn clean_strings_are_marshalable() {
    assert!(check_c_str("").is_ok());
    assert!(check_c_str("tests/files/dummy.pdf").is_ok());
    assert!(check_c_str("application/pdf").is_ok());
}

#[test]
fn engine_failure_carries_its_diagnostic() {
    let e = engine_error(String::from("cannot recognize format"));
    match e {
        Error::Engine { message } => assert_eq!(message, "cannot recognize format"),
        Error::InvalidInput => panic!("wrong error variant"),
    }
}
