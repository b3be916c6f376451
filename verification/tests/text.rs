use services_grouping::actions::data::load::{source_format, SourceFormat};
use services_grouping::model::excel::deserialize_as_vec;

#[test]
fn group_cell_is_split_at_commas_and_trimmed() {
    assert_eq!(deserialize_as_vec("Worship, Tech ,  Kids"), vec!["Worship", "Tech", "Kids"]);
}

#[test]
fn group_cell_keeps_empty_pieces() {
    assert_eq!(deserialize_as_vec("a,,b,"), vec!["a", "", "b", ""]);
    assert_eq!(deserialize_as_vec(""), vec![""]);
    assert_eq!(deserialize_as_vec("   "), vec![""]);
}

#[test]
fn group_cell_trims_unicode_white_space() {
    assert_eq!(deserialize_as_vec("\u{3000}Chör\u{a0}\t,\n x y \u{2028}"), vec!["Chör", "x y"]);
}

#[test]
fn group_cell_pieces_count_commas_plus_one() {
    let text = " , a,b ,, c ";
    let pieces = deserialize_as_vec(text);
    assert_eq!(pieces.len(), text.matches(',').count() + 1);
    for p in &pieces {
        assert!(!p.contains(','));
        assert_eq!(p.trim(), p);
    }
}

#[test]
fn source_format_follows_the_last_extension() {
    assert!(matches!(source_format("data/users.xlsx"), Some(SourceFormat::Excel)));
    assert!(matches!(source_format("users.backup.json"), Some(SourceFormat::Json)));
    assert!(source_format("users.csv").is_none());
    assert!(matches!(source_format("json"), Some(SourceFormat::Json)));
    assert!(source_format("users.JSON").is_none());
    assert!(source_format("users.xlsx.txt").is_none());
}
