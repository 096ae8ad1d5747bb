use psst_core::playback::{PlaybackState, QueueBehavior};
use psst_core::recommend::{Range, RecommendationsSeed, RecommendationsSeedType};
use psst_core::show::{EpisodeId, ResumePoint, ShowLink};
use psst_core::web::WebCache;

#[test]
fn show_url_is_prefix_plus_id() {
    let link = ShowLink { id: "4rOoJ6Egrf8K2IrywzwOMk".to_string(), name: "Example".to_string() };
    assert_eq!(link.url(), "https://open.spotify.com/show/4rOoJ6Egrf8K2IrywzwOMk");
}

#[test]
fn cache_entry_path_joins_base_bucket_and_id() {
    let cache = WebCache::new("/tmp/cache".to_string());
    let entry = cache.album("3KuXEGcqLcnEYWnn3OEGy0");
    assert_eq!(entry.path(), "/tmp/cache/album/3KuXEGcqLcnEYWnn3OEGy0");
}

#[test]
fn queue_behavior_defaults_to_sequential() {
    assert_eq!(QueueBehavior::default(), QueueBehavior::Sequential);
    assert_ne!(QueueBehavior::Random, QueueBehavior::Sequential);
}

#[test]
fn playback_state_is_plain_data() {
    let s = PlaybackState::Paused;
    assert_eq!(s, PlaybackState::Paused);
    assert_ne!(s, PlaybackState::Playing);
}

#[test]
fn range_defaults_to_fully_open() {
    let r: Range<u32> = Range::default();
    assert_eq!(r.min, None);
    assert_eq!(r.max, None);
    assert_eq!(r.target, None);
    let bounded = Range { min: Some(10u32), max: Some(20), target: Some(15) };
    assert_eq!(bounded.target, Some(15));
}

#[test]
fn recommendations_seed_holds_its_fields() {
    let seed = RecommendationsSeed {
        after_filtering_size: 3,
        after_relinking_size: 2,
        href: None,
        id: "seed-id".to_string(),
        initial_pool_size: 5,
        _type: RecommendationsSeedType::Artist,
    };
    assert_eq!(seed._type, RecommendationsSeedType::Artist);
    assert_eq!(seed.initial_pool_size, 5);
}

#[test]
fn episode_and_resume_point_are_plain_data() {
    let id = EpisodeId(0x1234_5678_9abc_def0);
    assert_eq!(id, EpisodeId(0x1234_5678_9abc_def0));
    assert_eq!(EpisodeId::default(), EpisodeId(0));
    let rp = ResumePoint { fully_played: false, resume_position: 90_000 };
    assert!(!rp.fully_played);
    assert_eq!(rp.resume_position, 90_000);
}
