use pdf_text_diff::change::{Change, Tag};
use pdf_text_diff::engine::{diff_lines, within_limits};

fn line_text(change: &Change) -> String {
    change.spans.iter().map(|s| s.text.as_str()).collect()
}

#[test]
fn equal_texts_have_no_difference() {
    assert!(diff_lines("a\nb\n", "a\nb\n").is_empty());
    assert!(diff_lines("", "").is_empty());
    assert!(diff_lines("no line break", "no line break").is_empty());
}

#[test]
fn one_replaced_line_is_deleted_and_inserted() {
    let groups = diff_lines("a\n", "b\n");
    assert_eq!(groups.len(), 1);
    let changes = &groups[0];
    assert_eq!(changes.len(), 2);
    assert_eq!(changes[0].tag, Tag::Delete);
    assert_eq!(changes[0].old_index, Some(0));
    assert_eq!(changes[0].new_index, None);
    assert_eq!(line_text(&changes[0]), "a\n");
    assert_eq!(changes[1].tag, Tag::Insert);
    assert_eq!(changes[1].old_index, None);
    assert_eq!(changes[1].new_index, Some(0));
    assert_eq!(line_text(&changes[1]), "b\n");
}

#[test]
fn three_lines_of_context_surround_a_change() {
    let old = "1\n2\n3\n4\n5\n6\n7\n8\n9\n";
    let new = "1\n2\n3\n4\nfive\n6\n7\n8\n9\n";
    let groups = diff_lines(old, new);
    assert_eq!(groups.len(), 1);
    let shown: Vec<(Tag, String)> = groups[0].iter().map(|c| (c.tag, line_text(c))).collect();
    let expected = vec![
        (Tag::Equal, String::from("2\n")),
        (Tag::Equal, String::from("3\n")),
        (Tag::Equal, String::from("4\n")),
        (Tag::Delete, String::from("5\n")),
        (Tag::Insert, String::from("five\n")),
        (Tag::Equal, String::from("6\n")),
        (Tag::Equal, String::from("7\n")),
        (Tag::Equal, String::from("8\n")),
    ];
    assert_eq!(shown, expected);
    assert_eq!(groups[0][0].old_index, Some(1));
    assert_eq!(groups[0][0].new_index, Some(1));
}

#[test]
fn distant_changes_are_in_groups_of_their_own() {
    let old: String = (1..=30).map(|n| format!("{}\n", n)).collect();
    let new = old.replace("3\n4\n", "3\nfour\n").replace("26\n", "twenty-six\n");
    let groups = diff_lines(&old, &new);
    assert_eq!(groups.len(), 2);
    assert!(groups[0].iter().any(|c| c.tag == Tag::Insert && line_text(c) == "four\n"));
    assert!(groups[1].iter().any(|c| c.tag == Tag::Delete && line_text(c) == "26\n"));
}

#[test]
fn what_differs_within_a_line_is_emphasized() {
    let groups = diff_lines("some stuff here\n", "some amazing stuff here\n");
    assert_eq!(groups.len(), 1);
    let inserted = groups[0].iter().find(|c| c.tag == Tag::Insert).unwrap();
    assert_eq!(line_text(inserted), "some amazing stuff here\n");
    assert!(inserted.spans.iter().any(|s| s.emphasized && s.text.contains("amazing")));
    assert!(inserted.spans.iter().all(|s| !s.emphasized || !s.text.contains('\n')));
}

#[test]
fn a_last_line_without_line_break_is_kept_so() {
    let groups = diff_lines("a\nb", "a\nc");
    assert_eq!(groups.len(), 1);
    let deleted = groups[0].iter().find(|c| c.tag == Tag::Delete).unwrap();
    assert_eq!(line_text(deleted), "b");
}

fn names_its_lines(change: &Change) -> bool {
    match change.tag {
        Tag::Delete => change.old_index.is_some() && change.new_index.is_none(),
        Tag::Insert => change.old_index.is_none() && change.new_index.is_some(),
        Tag::Equal => {
            change.old_index.is_some()
                && change.new_index.is_some()
                && change.spans.len() == 1
                && !change.spans[0].emphasized
        }
    }
}

#[test]
fn every_change_names_the_lines_its_tag_speaks_of() {
    let long: String = (1..=150).map(|n| format!("line {}\n", n)).collect();
    let cases = [
        (String::from("a\n"), String::from("b\n")),
        (String::from(""), String::from("only new\n")),
        (String::from("only old"), String::from("")),
        (String::from("a\nb\nc\n"), String::from("a\nc\n")),
        (String::from("some stuff here\nmore\n"), String::from("some amazing stuff here\nmore\n")),
        (String::from("x\r\ny\r\n"), String::from("x\ny\n")),
        (long.clone(), long.replace("line 7\n", "line seven\n").replace("line 140\n", "")),
    ];
    for (old, new) in cases.iter() {
        let groups = diff_lines(old, new);
        assert!(!groups.is_empty());
        for group in groups.iter() {
            for change in group.iter() {
                assert!(names_its_lines(change));
            }
        }
    }
}

#[test]
fn an_unchanged_line_is_one_part_with_its_text() {
    let groups = diff_lines("same words here\nold\n", "same words here\nnew\n");
    let equal = groups[0].iter().find(|c| c.tag == Tag::Equal).unwrap();
    assert_eq!(equal.spans.len(), 1);
    assert!(!equal.spans[0].emphasized);
    assert_eq!(equal.spans[0].text, "same words here\n");
    assert_eq!((equal.old_index, equal.new_index), (Some(0), Some(0)));
}

fn outlines(groups: &Vec<Vec<Change>>) -> Vec<Vec<(Tag, Option<usize>, Option<usize>, String)>> {
    groups
        .iter()
        .map(|g| g.iter().map(|c| (c.tag, c.old_index, c.new_index, line_text(c))).collect())
        .collect()
}

fn lines_of(text: &str) -> Vec<String> {
    let chars: Vec<char> = text.chars().collect();
    let mut lines = Vec::new();
    let mut line = String::new();
    for (i, c) in chars.iter().enumerate() {
        line.push(*c);
        let followed_by_feed = i + 1 < chars.len() && chars[i + 1] == '\n';
        if *c == '\n' || (*c == '\r' && !followed_by_feed) {
            lines.push(line);
            line = String::new();
        }
    }
    if !line.is_empty() {
        lines.push(line);
    }
    lines
}

fn samples() -> Vec<(String, String)> {
    let long: String = (1..=150).map(|n| format!("line number {}\n", n)).collect();
    vec![
        (String::from("a\n"), String::from("b\n")),
        (String::from(""), String::from("only new\n")),
        (String::from("only old"), String::from("")),
        (String::from("a\nb\nc\n"), String::from("a\nc\n")),
        (String::from("some stuff here\nmore\n"), String::from("some amazing stuff here\nmore\n")),
        (String::from("one two three\nfour five six"), String::from("one 2 three\nfour five 6\n")),
        (long.clone(), long.replace("number 7\n", "number seven\n").replace("line number 140\n", "")),
        (long.clone(), format!("{}and one more", long)),
        (String::from("x\r\ny\r\nz"), String::from("x\ny\rz\r")),
        (String::from("a\rb\r\rc\n\n"), String::from("a\rB\r\rc\n")),
        (String::from("\r"), String::from("\n")),
    ]
}

#[test]
fn no_group_is_empty() {
    for (old, new) in samples().iter() {
        for group in diff_lines(old, new).iter() {
            assert!(!group.is_empty());
        }
    }
}

#[test]
fn different_texts_have_a_group() {
    for (old, new) in samples().iter() {
        assert!(!diff_lines(old, new).is_empty());
        assert!(!diff_lines(new, old).is_empty());
    }
    assert!(!diff_lines("a", "a\n").is_empty());
    assert!(!diff_lines("a\r\n", "a\n").is_empty());
    assert!(!diff_lines(" ", "").is_empty());
}

#[test]
fn the_same_texts_give_the_same_outlines() {
    for (old, new) in samples().iter() {
        assert_eq!(outlines(&diff_lines(old, new)), outlines(&diff_lines(old, new)));
    }
}

#[test]
fn the_parts_of_a_change_join_to_its_line() {
    for (old, new) in samples().iter() {
        let old_lines = lines_of(old);
        let new_lines = lines_of(new);
        for group in diff_lines(old, new).iter() {
            for change in group.iter() {
                if let Some(i) = change.old_index {
                    assert_eq!(line_text(change), old_lines[i]);
                }
                if let Some(j) = change.new_index {
                    assert_eq!(line_text(change), new_lines[j]);
                }
            }
        }
    }
}

#[test]
fn every_line_of_a_changed_run_comes_once() {
    let groups = diff_lines("x\nkeep\nold one\nold two\nend\n", "x\nkeep\nnew one\nend\n");
    let expected = vec![vec![
        (Tag::Equal, Some(0), Some(0), String::from("x\n")),
        (Tag::Equal, Some(1), Some(1), String::from("keep\n")),
        (Tag::Delete, Some(2), None, String::from("old one\n")),
        (Tag::Delete, Some(3), None, String::from("old two\n")),
        (Tag::Insert, None, Some(2), String::from("new one\n")),
        (Tag::Equal, Some(4), Some(3), String::from("end\n")),
    ]];
    assert_eq!(outlines(&groups), expected);
}

#[test]
fn every_index_is_within_its_text() {
    for (old, new) in samples().iter() {
        let old_lines = lines_of(old).len();
        let new_lines = lines_of(new).len();
        for group in diff_lines(old, new).iter() {
            for change in group.iter() {
                assert!(change.old_index.map_or(true, |i| i < old_lines));
                assert!(change.new_index.map_or(true, |j| j < new_lines));
            }
        }
    }
}

#[test]
fn a_text_added_to_nothing_shows_every_line_of_it() {
    for text in ["one\ntwo\r\nthree\rfour", "\r\n\n\r", "no end", "\n"] {
        let groups = diff_lines("", text);
        assert_eq!(groups.len(), 1);
        let shown: Vec<String> = groups[0].iter().map(line_text).collect();
        assert_eq!(shown, lines_of(text));
        let indices: Vec<Option<usize>> = groups[0].iter().map(|c| c.new_index).collect();
        let expected: Vec<Option<usize>> = (0..shown.len()).map(Some).collect();
        assert_eq!(indices, expected);
    }
}

#[test]
fn ordinary_texts_are_within_the_limits() {
    assert!(within_limits("", ""));
    assert!(within_limits("a\nb\n", "c"));
    let long: String = (1..=1000).map(|n| format!("line {}\n", n)).collect();
    assert!(within_limits(&long, &long));
}
