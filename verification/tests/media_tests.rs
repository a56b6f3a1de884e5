use backup_photos::media::{
    all_extensions, category_of_path, count_files_with_extensions, media_extensions,
    metadata_extensions, photo_extensions, video_extensions, MediaCategory,
};

#[test]
fn classification_recognises_each_category() {
    assert_eq!(category_of_path(b"/tree/a.jpg"), Some(MediaCategory::Photo));
    assert_eq!(category_of_path(b"/tree/b.mov"), Some(MediaCategory::Video));
    assert_eq!(category_of_path(b"/tree/c.xmp"), Some(MediaCategory::Metadata));
    assert_eq!(category_of_path(b"/tree/d.txt"), None);
}

#[test]
fn classification_ignores_extension_casing() {
    assert_eq!(category_of_path(b"/tree/a.JPG"), Some(MediaCategory::Photo));
    assert_eq!(category_of_path(b"/tree/a.Jpeg"), Some(MediaCategory::Photo));
    assert_eq!(category_of_path(b"/tree/v.MOV"), Some(MediaCategory::Video));
    assert_eq!(category_of_path(b"/tree/m.XmP"), Some(MediaCategory::Metadata));
}

#[test]
fn files_without_usable_extension_are_not_classified() {
    assert_eq!(category_of_path(b"/tree/noext"), None);
    assert_eq!(category_of_path(b"/tree/.hidden"), None);
    assert_eq!(category_of_path(b"/tree.d/noext"), None);
}

#[test]
fn extension_lists_have_the_documented_sizes() {
    assert_eq!(photo_extensions().len(), 9);
    assert_eq!(video_extensions().len(), 11);
    assert_eq!(metadata_extensions().len(), 1);
    assert_eq!(media_extensions().len(), 20);
    assert_eq!(all_extensions().len(), 21);
}

#[test]
fn counting_matches_only_listed_extensions() {
    let paths: Vec<Vec<u8>> = vec![
        b"/t/a.jpg".to_vec(),
        b"/t/b.MOV".to_vec(),
        b"/t/c.txt".to_vec(),
        b"/t/d.xmp".to_vec(),
        b"/t/e".to_vec(),
    ];
    let photos = photo_extensions();
    let media = media_extensions();
    let everything = all_extensions();
    assert_eq!(count_files_with_extensions(&paths, &photos), 1);
    assert_eq!(count_files_with_extensions(&paths, &media), 2);
    assert_eq!(count_files_with_extensions(&paths, &everything), 3);
}
