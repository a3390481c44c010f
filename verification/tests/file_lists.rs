use gloo_file::{BlobContents, File, FileList};

fn sample(name: &str, len: usize) -> File {
    File::new(name.to_string(), BlobContents::from_bytes(&vec![0u8; len]))
}

#[test]
fn snapshot_exposes_every_entry_in_order() {
    let files = vec![sample("a", 1), sample("b", 2), sample("c", 3)];
    let list = FileList::from_raw(files);
    assert_eq!(list.len(), 3);
    assert_eq!(list.get(0).name(), "a");
    assert_eq!(list.get(1).name(), "b");
    assert_eq!(list.get(2).name(), "c");
    assert_eq!(list.get(2).size(), 3);
}

#[test]
fn snapshot_is_immune_to_later_host_mutation() {
    let mut host_collection = vec![sample("a", 1), sample("b", 2)];
    let list = FileList::from_raw(host_collection.clone());

    // The host collection changes after the snapshot was taken.
    host_collection.push(sample("c", 3));
    host_collection[0] = sample("z", 9);
    host_collection.clear();

    assert_eq!(list.len(), 2);
    assert_eq!(list.get(0).name(), "a");
    assert_eq!(list.get(0).size(), 1);
    assert_eq!(list.get(1).name(), "b");
}

#[test]
fn empty_snapshot_has_no_entries() {
    let list = FileList::from_raw(Vec::new());
    assert_eq!(list.len(), 0);
    assert!(list.as_slice().is_empty());
}

#[test]
fn as_slice_matches_indexed_access() {
    let files = vec![sample("x", 4), sample("y", 5)];
    let list = FileList::from_raw(files);
    let slice = list.as_slice();
    assert_eq!(slice.len(), 2);
    assert_eq!(slice[0].name(), list.get(0).name());
    assert_eq!(slice[1].name(), list.get(1).name());
}
