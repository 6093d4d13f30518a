use ziplist::render::{render_list, render_zip};
use ziplist::{List, Stack, ZipList};

fn strings(xs: &[&str]) -> Vec<String> {
    xs.iter().map(|s| s.to_string()).collect()
}

#[test]
fn renders_empty_list() {
    assert_eq!(render_list(&Vec::new()), "[]");
}

#[test]
fn renders_one_item() {
    assert_eq!(render_list(&strings(&["7"])), "[7]");
}

#[test]
fn renders_items_with_commas() {
    assert_eq!(render_list(&strings(&["3", "2", "1"])), "[3, 2, 1]");
}

#[test]
fn renders_zip_sides_around_cursor() {
    assert_eq!(render_zip(&strings(&["2", "1"]), &strings(&["3"])), "[2, 1, _, 3]");
    assert_eq!(render_zip(&Vec::new(), &Vec::new()), "[_]");
    assert_eq!(render_zip(&strings(&["a"]), &Vec::new()), "[a, _]");
    assert_eq!(render_zip(&Vec::new(), &strings(&["b", "c"])), "[_, b, c]");
}

#[test]
fn renders_a_list_head_first() {
    let mut list = List::new();
    list.push(1).push(2).push(3);
    let mut parts = Vec::new();
    let mut it = list.iter();
    while let Some(x) = it.next() {
        parts.push(x.to_string());
    }
    assert_eq!(render_list(&parts), "[3, 2, 1]");
}

#[test]
fn renders_a_ziplist_nearest_first() {
    let mut zip = ZipList::new();
    zip.push_left(1).push_left(2).push_right(3);
    let side = |mut it: ziplist::list::Iter<'_, i32>| {
        let mut out = Vec::new();
        while let Some(x) = it.next() {
            out.push(x.to_string());
        }
        out
    };
    let text = render_zip(&side(zip.left_iter()), &side(zip.right_iter()));
    assert_eq!(text, "[2, 1, _, 3]");
}
