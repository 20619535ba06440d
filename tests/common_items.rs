use jellytui::catalog::Catalog;
use jellytui::item::MediaItem;

fn item(id: &str, name: &str, kind: &str) -> MediaItem {
    MediaItem {
        id: id.to_string(),
        name: name.to_string(),
        type_: kind.to_string(),
        path: None,
        collection_type: None,
        year: None,
        overview: None,
        imdb_rating: None,
        critic_rating: None,
        runtime_ticks: None,
        series_id: None,
        series_name: None,
        parent_index_number: None,
        index_number: None,
    }
}

fn episode(id: &str, series: &str, season: i64, number: i64) -> MediaItem {
    let mut e = item(id, &format!("Episode {}", number), "Episode");
    e.series_id = Some(series.to_string());
    e.series_name = Some("Show".to_string());
    e.parent_index_number = Some(season);
    e.index_number = Some(number);
    e
}

fn catalog_of(items: Vec<MediaItem>) -> Catalog {
    Catalog::new(&items, Vec::new(), Vec::new(), Vec::new())
}

#[test]
fn title_of_episode() {
    let mut e = item("e", "Bar", "Episode");
    e.series_name = Some("Foo".to_string());
    e.parent_index_number = Some(2);
    e.index_number = Some(5);
    assert_eq!(e.format_title(), "Foo - S02E05 - Bar");
}

#[test]
fn title_of_episode_with_missing_fields() {
    let e = item("e", "Pilot", "Episode");
    assert_eq!(e.format_title(), "Unknown Series - S00E00 - Pilot");
}

#[test]
fn title_of_episode_with_large_numbers() {
    let mut e = item("e", "Late", "Episode");
    e.series_name = Some("Long".to_string());
    e.parent_index_number = Some(12);
    e.index_number = Some(123);
    assert_eq!(e.format_title(), "Long - S12E123 - Late");
}

#[test]
fn title_of_movie_with_year() {
    let mut m = item("m", "Title", "Movie");
    m.year = Some(1999);
    assert_eq!(m.format_title(), "Title (1999)");
}

#[test]
fn title_of_movie_without_year() {
    let m = item("m", "Title", "Movie");
    assert_eq!(m.format_title(), "Title");
}

#[test]
fn runtime_with_hours() {
    let mut m = item("m", "Long", "Movie");
    m.runtime_ticks = Some(78_000_000_000);
    assert_eq!(m.format_runtime(), "2h 10m");
}

#[test]
fn runtime_under_an_hour() {
    let mut m = item("m", "Short", "Movie");
    m.runtime_ticks = Some(27_000_000_000);
    assert_eq!(m.format_runtime(), "45m");
}

#[test]
fn runtime_exactly_one_hour() {
    let mut m = item("m", "Hour", "Movie");
    m.runtime_ticks = Some(36_000_000_000);
    assert_eq!(m.format_runtime(), "1h 0m");
}

#[test]
fn runtime_unknown() {
    let m = item("m", "None", "Movie");
    assert_eq!(m.format_runtime(), "Unknown runtime");
    assert_eq!(m.format_end_time(), "Unknown runtime");
}

#[test]
fn end_time_is_a_clock_time() {
    let mut m = item("m", "Film", "Movie");
    m.runtime_ticks = Some(54_000_000_000);
    let t = m.format_end_time();
    assert_eq!(t.len(), 5);
    assert_eq!(&t[2..3], ":");
    let h: u32 = t[0..2].parse().unwrap();
    let min: u32 = t[3..5].parse().unwrap();
    assert!(h < 24 && min < 60);
}

#[test]
fn next_episode_within_and_across_seasons() {
    let c = catalog_of(vec![
        episode("s1e1", "show", 1, 1),
        episode("s1e2", "show", 1, 2),
        episode("s2e1", "show", 2, 1),
    ]);
    let after_first = c.next_episode(&c.items[0]).unwrap();
    assert_eq!(after_first.id, "s1e2");
    let after_second = c.next_episode(&c.items[1]).unwrap();
    assert_eq!(after_second.id, "s2e1");
    assert!(c.next_episode(&c.items[2]).is_none());
}

#[test]
fn next_episode_ignores_other_series() {
    let c = catalog_of(vec![
        episode("a1", "a", 1, 1),
        episode("b2", "b", 1, 2),
    ]);
    assert!(c.next_episode(&c.items[0]).is_none());
}

#[test]
fn next_episode_of_a_movie_is_none() {
    let c = catalog_of(vec![item("m", "Film", "Movie"), episode("e", "s", 1, 1)]);
    assert!(c.next_episode(&c.items[0]).is_none());
}

#[test]
fn episodes_of_series_are_sorted() {
    let c = catalog_of(vec![
        episode("s2e1", "show", 2, 1),
        item("m", "Film", "Movie"),
        episode("s1e2", "show", 1, 2),
        episode("x1", "other", 1, 1),
        episode("s1e1", "show", 1, 1),
    ]);
    let eps = c.get_episodes_from_series("show");
    let ids: Vec<&str> = eps.iter().map(|e| e.id.as_str()).collect();
    assert_eq!(ids, vec!["s1e1", "s1e2", "s2e1"]);
    assert!(c.get_episodes_from_series("missing").is_empty());
}

#[test]
fn keyed_catalog_keeps_last_of_each_id() {
    let mut first = item("a", "Old", "Movie");
    first.year = Some(2000);
    let second = item("b", "Other", "Movie");
    let third = item("a", "New", "Movie");
    let keyed = Catalog::keyed(&vec![first, second, third]);
    assert_eq!(keyed.len(), 2);
    assert_eq!(keyed[0].id, "a");
    assert_eq!(keyed[0].name, "New");
    assert_eq!(keyed[1].id, "b");
}

#[test]
fn keyed_catalog_of_unique_ids_is_unchanged() {
    let items = vec![item("a", "A", "Movie"), item("b", "B", "Series"), item("c", "C", "Episode")];
    let keyed = Catalog::keyed(&items);
    let ids: Vec<&str> = keyed.iter().map(|e| e.id.as_str()).collect();
    assert_eq!(ids, vec!["a", "b", "c"]);
    let again = Catalog::keyed(&keyed);
    let names: Vec<&str> = again.iter().map(|e| e.name.as_str()).collect();
    assert_eq!(names, vec!["A", "B", "C"]);
}

#[test]
fn empty_catalog() {
    let c = catalog_of(Vec::new());
    assert!(c.items.is_empty());
    assert!(c.get_episodes_from_series("any").is_empty());
}

#[test]
fn items_of_one_type_keep_catalog_order() {
    let c = catalog_of(vec![
        item("m2", "Zed", "Movie"),
        item("s", "Show", "Series"),
        episode("e", "s", 1, 1),
        item("m1", "Alpha", "Movie"),
    ]);
    let movies: Vec<String> = c.items_of_type("Movie").into_iter().map(|m| m.id).collect();
    assert_eq!(movies, vec!["m2".to_string(), "m1".to_string()]);
    assert_eq!(c.items_of_type("Series").len(), 1);
    assert_eq!(c.items_of_type("Episode").len(), 1);
    assert!(c.items_of_type("Trailer").is_empty());
}
