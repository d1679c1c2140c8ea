use scrape_core::browser::{candidate_paths, locate_renderer, BrowserEnv};
use scrape_core::search::parse_duckduckgo_results;

fn full() -> BrowserEnv {
    BrowserEnv {
        program_files: Some("C:\\Program Files".to_string()),
        program_files_x86: Some("C:\\Program Files (x86)".to_string()),
        local_app_data: Some("C:\\Users\\me\\AppData\\Local".to_string()),
    }
}

#[test]
fn candidates_in_order_of_preference() {
    assert_eq!(
        candidate_paths(&full()),
        vec![
            "C:\\Program Files\\Google\\Chrome\\Application\\chrome.exe",
            "C:\\Program Files (x86)\\Google\\Chrome\\Application\\chrome.exe",
            "C:\\Users\\me\\AppData\\Local\\Google\\Chrome\\Application\\chrome.exe",
            "C:\\Program Files\\Chromium\\Application\\chrome.exe",
            "C:\\Users\\me\\AppData\\Local\\Chromium\\Application\\chrome.exe",
            "C:\\Program Files (x86)\\Microsoft\\Edge\\Application\\msedge.exe",
            "C:\\Program Files\\Microsoft\\Edge\\Application\\msedge.exe",
        ]
    );
}

#[test]
fn directories_that_are_not_named_are_left_out() {
    let env = BrowserEnv { program_files: None, program_files_x86: None, local_app_data: None };
    assert!(candidate_paths(&env).is_empty());
    let env = BrowserEnv {
        program_files: None,
        program_files_x86: Some("D:\\x86".to_string()),
        local_app_data: None,
    };
    assert_eq!(
        candidate_paths(&env),
        vec![
            "D:\\x86\\Google\\Chrome\\Application\\chrome.exe",
            "D:\\x86\\Microsoft\\Edge\\Application\\msedge.exe",
        ]
    );
}

#[test]
fn the_first_path_that_is_present_is_taken() {
    let paths = candidate_paths(&full());
    let present = vec![false, false, true, false, true, true, false];
    assert_eq!(locate_renderer(&paths, &present), Some(paths[2].clone()));
    let present = vec![true; 7];
    assert_eq!(locate_renderer(&paths, &present), Some(paths[0].clone()));
    let present = vec![false, false, false, false, false, false, true];
    assert_eq!(locate_renderer(&paths, &present), Some(paths[6].clone()));
}

#[test]
fn no_path_present_means_no_browser() {
    let paths = candidate_paths(&full());
    assert_eq!(locate_renderer(&paths, &vec![false; 7]), None);
    assert_eq!(locate_renderer(&paths, &Vec::new()), None);
    assert_eq!(locate_renderer(&Vec::new(), &vec![true]), None);
}

#[test]
fn entries_beyond_the_paths_find_nothing() {
    let paths = vec!["a".to_string()];
    assert_eq!(locate_renderer(&paths, &vec![false, true]), None);
    assert_eq!(locate_renderer(&paths, &vec![true, true]), Some("a".to_string()));
}

#[test]
fn search_pages_are_not_read_here() {
    assert_eq!(parse_duckduckgo_results("", 5), Ok(Vec::new()));
    assert_eq!(
        parse_duckduckgo_results("<a class=\"result__a\" href=\"https://x\">x</a>", 5),
        Ok(Vec::new())
    );
    assert_eq!(parse_duckduckgo_results("anything", 0), Ok(Vec::new()));
}
