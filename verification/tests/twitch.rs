use streamfinder::settings::{Server, Tracing};
use streamfinder::twitch::{Category, PAGE_SIZE};

const ALL_CATEGORIES: [Category; 10] = [
    Category::Art,
    Category::BeautyAndBodyArt,
    Category::FoodAndDrink,
    Category::JustChatting,
    Category::MakersAndCrafting,
    Category::Music,
    Category::Retro,
    Category::ScienceAndTechnology,
    Category::SoftwareAndGameDevelopment,
    Category::TalkShowsAndPodcasts,
];

#[test]
fn game_ids_are_the_fixed_upstream_identifiers() {
    assert_eq!(Category::Art.game_id(), "509660");
    assert_eq!(Category::BeautyAndBodyArt.game_id(), "509669");
    assert_eq!(Category::FoodAndDrink.game_id(), "509667");
    assert_eq!(Category::JustChatting.game_id(), "509658");
    assert_eq!(Category::MakersAndCrafting.game_id(), "509673");
    assert_eq!(Category::Music.game_id(), "26936");
    assert_eq!(Category::Retro.game_id(), "27284");
    assert_eq!(Category::ScienceAndTechnology.game_id(), "509670");
    assert_eq!(Category::SoftwareAndGameDevelopment.game_id(), "1469308723");
    assert_eq!(Category::TalkShowsAndPodcasts.game_id(), "417752");
}

#[test]
fn game_ids_are_distinct() {
    for (i, a) in ALL_CATEGORIES.iter().enumerate() {
        for b in &ALL_CATEGORIES[i + 1..] {
            assert_ne!(a.game_id(), b.game_id());
        }
    }
}

#[test]
fn names_are_human_readable() {
    assert_eq!(Category::Art.name(), "Art");
    assert_eq!(Category::ScienceAndTechnology.name(), "Science & Technology");
    assert_eq!(
        Category::SoftwareAndGameDevelopment.name(),
        "Software and Game Development"
    );
    assert_eq!(Category::TalkShowsAndPodcasts.name(), "Talk Shows & Podcasts");
}

#[test]
fn page_size_is_the_upstream_maximum() {
    assert_eq!(PAGE_SIZE, 100);
}

#[test]
fn settings_defaults_are_empty() {
    let server = Server::default();
    assert_eq!(server.concurrency_limit, None);
    assert_eq!(server.timeout, None);
    let tracing = Tracing::default();
    assert!(tracing.archer.is_none());
}
