use photo_sort::analyzer::SourceFile;
use photo_sort::grouper::{BracketEXIFInformation, BracketGrouper, Detection, Job};

fn file(parent: &str, name: &str) -> SourceFile {
    SourceFile {
        path: format!("{}/{}.ARW", parent, name),
        parent: Some(parent.to_string()),
        file_name: format!("{}.ARW", name),
        stem: name.to_string(),
        extension: Some("ARW".to_string()),
    }
}

fn bracketed(index: u32) -> Detection {
    Detection::Bracketed(BracketEXIFInformation { index })
}

fn summary(jobs: &Vec<Job>) -> Vec<(String, Option<(u32, usize, usize, String, String)>)> {
    jobs.iter()
        .map(|j| {
            (
                j.file.stem.clone(),
                j.bracket_info.as_ref().map(|b| {
                    (
                        b.sequence_number,
                        b.sequence_length,
                        b.group_index,
                        b.first_name.clone(),
                        b.last_name.clone(),
                    )
                }),
            )
        })
        .collect()
}

#[test]
fn two_directories_give_two_groups() {
    let mut g = BracketGrouper::new();
    assert!(g.push(file("A", "a1"), bracketed(1)).is_empty());
    assert!(g.push(file("A", "a2"), bracketed(2)).is_empty());
    assert!(g.push(file("A", "a3"), bracketed(3)).is_empty());
    let first = g.push(file("B", "b1"), bracketed(1));
    assert_eq!(
        summary(&first),
        vec![
            ("a1".to_string(), Some((1, 3, 0, "a1".to_string(), "a3".to_string()))),
            ("a2".to_string(), Some((2, 3, 0, "a1".to_string(), "a3".to_string()))),
            ("a3".to_string(), Some((3, 3, 0, "a1".to_string(), "a3".to_string()))),
        ]
    );
    assert_eq!(first[0].bracket_info.as_ref().unwrap().first, "A/a1.ARW");
    assert_eq!(first[0].bracket_info.as_ref().unwrap().last, "A/a3.ARW");
    let second = g.finish();
    assert_eq!(
        summary(&second),
        vec![("b1".to_string(), Some((1, 1, 1, "b1".to_string(), "b1".to_string())))]
    );
    assert_eq!(g.group_index, 2);
    assert!(g.queue.is_empty());
    assert!(g.finish().is_empty());
    assert_eq!(g.group_index, 2);
}

#[test]
fn index_gap_ends_the_group() {
    let mut g = BracketGrouper::new();
    assert!(g.push(file("A", "a1"), bracketed(1)).is_empty());
    assert!(g.push(file("A", "a2"), bracketed(2)).is_empty());
    let out = g.push(file("A", "a3"), bracketed(1));
    assert_eq!(
        summary(&out),
        vec![
            ("a1".to_string(), Some((1, 2, 0, "a1".to_string(), "a2".to_string()))),
            ("a2".to_string(), Some((2, 2, 0, "a1".to_string(), "a2".to_string()))),
        ]
    );
    let out = g.push(file("A", "a4"), bracketed(3));
    assert_eq!(
        summary(&out),
        vec![("a3".to_string(), Some((1, 1, 1, "a3".to_string(), "a3".to_string())))]
    );
    assert_eq!(g.queue.len(), 1);
    assert_eq!(g.group_index, 2);
}

#[test]
fn plain_file_ends_the_group_and_follows_it() {
    let mut g = BracketGrouper::new();
    assert_eq!(summary(&g.push(file("A", "p0"), Detection::Plain)), vec![("p0".to_string(), None)]);
    assert_eq!(g.group_index, 0);
    assert!(g.push(file("A", "a1"), bracketed(5)).is_empty());
    let out = g.push(file("A", "p1"), Detection::Plain);
    assert_eq!(
        summary(&out),
        vec![
            ("a1".to_string(), Some((5, 1, 0, "a1".to_string(), "a1".to_string()))),
            ("p1".to_string(), None),
        ]
    );
    assert_eq!(g.group_index, 1);
}

#[test]
fn unreadable_file_ends_the_group_and_follows_it() {
    let mut g = BracketGrouper::new();
    assert!(g.push(file("A", "a1"), bracketed(1)).is_empty());
    assert!(g.push(file("A", "a2"), bracketed(2)).is_empty());
    let out = g.push(file("A", "bad"), Detection::Failed);
    assert_eq!(
        summary(&out),
        vec![
            ("a1".to_string(), Some((1, 2, 0, "a1".to_string(), "a2".to_string()))),
            ("a2".to_string(), Some((2, 2, 0, "a1".to_string(), "a2".to_string()))),
            ("bad".to_string(), None),
        ]
    );
    assert!(g.queue.is_empty());
}

#[test]
fn largest_index_has_no_successor() {
    let mut g = BracketGrouper::new();
    assert!(g.push(file("A", "a1"), bracketed(u32::MAX)).is_empty());
    let out = g.push(file("A", "a2"), bracketed(0));
    assert_eq!(out.len(), 1);
    assert_eq!(g.queue.len(), 1);
}

#[test]
fn every_file_comes_out_once_and_in_order() {
    let mut g = BracketGrouper::new();
    let mut names = Vec::new();
    let input = vec![
        ("A", "f0", Detection::Plain),
        ("A", "f1", bracketed(1)),
        ("A", "f2", bracketed(2)),
        ("B", "f3", bracketed(3)),
        ("B", "f4", Detection::Failed),
        ("B", "f5", bracketed(1)),
        ("B", "f6", bracketed(1)),
    ];
    for (parent, name, detection) in input {
        for job in g.push(file(parent, name), detection) {
            names.push(job.file.stem);
        }
    }
    for job in g.finish() {
        names.push(job.file.stem);
    }
    assert_eq!(names, vec!["f0", "f1", "f2", "f3", "f4", "f5", "f6"]);
    assert_eq!(g.group_index, 4);
}
