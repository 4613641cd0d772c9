use beatsaver_rs::map_id::MapId;
use beatsaver_rs::urls::{
    beatsaver_url, download_url, map_detail_url, map_hash_url, maps_sort_url, maps_uploader_url,
    search_advanced_url, search_text_url, user_find_url, MapSort,
};

#[test]
fn base_url_is_fixed() {
    assert_eq!(beatsaver_url(), "https://beatsaver.com/");
}

#[test]
fn map_detail_path_renders_key_in_hex() {
    assert_eq!(map_detail_url(0x2144), "https://beatsaver.com/api/maps/detail/2144");
    assert_eq!(map_detail_url(1), "https://beatsaver.com/api/maps/detail/1");
}

#[test]
fn map_hash_path_keeps_hash_text() {
    assert_eq!(
        map_hash_url("fda568fc27c20d21f8dc6f3709b49b5cc96723be"),
        "https://beatsaver.com/api/maps/by-hash/fda568fc27c20d21f8dc6f3709b49b5cc96723be"
    );
}

#[test]
fn uploader_path_joins_id_and_page() {
    assert_eq!(
        maps_uploader_url("5cff0b7298cc5a672c84e98d", 3),
        "https://beatsaver.com/api/maps/uploader/5cff0b7298cc5a672c84e98d/3"
    );
}

#[test]
fn sorted_listing_paths_name_each_order() {
    assert_eq!(maps_sort_url(MapSort::Hot, 0), "https://beatsaver.com/api/maps/hot/0");
    assert_eq!(maps_sort_url(MapSort::Rating, 1), "https://beatsaver.com/api/maps/rating/1");
    assert_eq!(maps_sort_url(MapSort::Latest, 2), "https://beatsaver.com/api/maps/latest/2");
    assert_eq!(
        maps_sort_url(MapSort::Downloads, 10),
        "https://beatsaver.com/api/maps/downloads/10"
    );
    assert_eq!(maps_sort_url(MapSort::Plays, 3536), "https://beatsaver.com/api/maps/plays/3536");
}

#[test]
fn text_search_percent_encodes_query() {
    assert_eq!(
        search_text_url("hello world", 0),
        "https://beatsaver.com/api/search/text/0?q=hello%20world"
    );
    assert_eq!(
        search_text_url("unchanged-Query_1.~", 4),
        "https://beatsaver.com/api/search/text/4?q=unchanged-Query_1.~"
    );
}

#[test]
fn text_search_encodes_multibyte_characters_bytewise() {
    assert_eq!(
        search_text_url("h\u{e9}llo", 1),
        "https://beatsaver.com/api/search/text/1?q=h%C3%A9llo"
    );
}

#[test]
fn advanced_search_percent_encodes_query() {
    assert_eq!(
        search_advanced_url("uploaded:[2019 TO *]", 2),
        "https://beatsaver.com/api/search/advanced/2?q=uploaded%3A%5B2019%20TO%20%2A%5D"
    );
}

#[test]
fn user_find_path_keeps_id() {
    assert_eq!(
        user_find_url("5cff0b7298cc5a672c84e98d"),
        "https://beatsaver.com/api/users/find/5cff0b7298cc5a672c84e98d"
    );
}

#[test]
fn download_paths_follow_identifier_kind() {
    assert_eq!(
        download_url(&MapId::Key(0x2144)),
        "https://beatsaver.com/api/download/key/2144"
    );
    assert_eq!(
        download_url(&MapId::Hash(String::from("fda568fc27c20d21f8dc6f3709b49b5cc96723be"))),
        "https://beatsaver.com/api/download/hash/fda568fc27c20d21f8dc6f3709b49b5cc96723be"
    );
}
