use youtube_client::error::InputError;
use youtube_client::video::query::DeleteVideo;
use youtube_client::video::query::GetRating;
use youtube_client::video::query::InsertVideos;
use youtube_client::video::query::ListVideos;
use youtube_client::video::query::Part;
use youtube_client::video::query::RateVideo;
use youtube_client::video::query::UpdateVideos;

#[test]
fn video_test_build_query_params_list_most_popular_videos() {
    let most_popular = ListVideos::create_with_chart_most_popular().build_query_parameters().unwrap();
    assert_eq!(most_popular.query_params, "part=snippet,statistics,contentDetails,id,liveStreamingDetails,localizations,player,recordingDetails,status,topicDetails&chart=mostPopular")
}

#[test]
fn video_test_build_query_params_list_liked_videos() {
    let liked_videos = ListVideos::create_with_my_rating_like().build_query_parameters().unwrap();
    assert_eq!(liked_videos.query_params, "part=snippet,statistics,contentDetails,id,liveStreamingDetails,localizations,player,recordingDetails,status,topicDetails&my_rating=like")
}

#[test]
fn video_test_build_query_params_insert_video() {
    let insert_video = InsertVideos::default().build_query_parameters();
    assert_eq!(insert_video.query_params, "part=snippet,statistics,contentDetails,id,liveStreamingDetails,localizations,player,recordingDetails,status,topicDetails")
}

#[test]
fn video_test_build_query_params_update_video() {
    let update_video = UpdateVideos::default().build_query_parameters();
    assert_eq!(update_video.query_params, "part=snippet,statistics,contentDetails,id,liveStreamingDetails,localizations,player,recordingDetails,status,topicDetails")
}

#[test]
fn video_test_build_query_params_delete_video() {
    let delete_video = DeleteVideo::new().build_query_parameters();
    assert_eq!(delete_video.query_params, "id=E6UTz_Doic8")
}

#[test]
fn video_test_build_query_params_get_rating() {
    let get_rating = GetRating::new().build_query_parameters();
    assert_eq!(get_rating.query_params, "id=E6UTz_Doic8")
}

#[test]
fn video_test_panic_with_both_chart_and_my_rating_values() {
    let most_popular = ListVideos {
        chart: "123".to_string(),
        my_rating: "123".to_string(),
        query_params: "".to_string(),
    }
    .build_query_parameters();
    assert!(most_popular.is_err());
    assert_eq!(most_popular.unwrap_err(), InputError::ChartMyRatingExclusive);
}

#[test]
fn video_test_panic_with_neither_chart_nor_my_rating_values() {
    let most_popular = ListVideos {
        chart: "".to_string(),
        my_rating: "".to_string(),
        query_params: "".to_string(),
    }
    .build_query_parameters();
    assert!(most_popular.is_err());
    assert_eq!(most_popular.unwrap_err(), InputError::ChartMyRatingExclusive);
}

#[test]
fn query_test_build_query_params_list_most_popular_videos() {
    let most_popular = ListVideos::create_with_chart_most_popular().build_query_parameters().unwrap();
    assert_eq!(most_popular.query_params, "part=snippet,statistics,contentDetails,id,liveStreamingDetails,localizations,player,recordingDetails,status,topicDetails&chart=mostPopular")
}

#[test]
fn query_test_build_query_params_list_liked_videos() {
    let liked_videos = ListVideos::create_with_my_rating_like().build_query_parameters().unwrap();
    assert_eq!(liked_videos.query_params, "part=snippet,statistics,contentDetails,id,liveStreamingDetails,localizations,player,recordingDetails,status,topicDetails&my_rating=like")
}

#[test]
fn query_test_build_query_params_insert_video() {
    let insert_video = InsertVideos::default().build_query_parameters();
    assert_eq!(insert_video.query_params, "part=snippet,statistics,contentDetails,id,liveStreamingDetails,localizations,player,recordingDetails,status,topicDetails")
}

#[test]
fn query_test_build_query_params_update_video() {
    let update_video = UpdateVideos::default().build_query_parameters();
    assert_eq!(update_video.query_params, "part=snippet,statistics,contentDetails,id,liveStreamingDetails,localizations,player,recordingDetails,status,topicDetails")
}

#[test]
fn query_test_build_query_params_delete_video() {
    let delete_video = DeleteVideo::new().build_query_parameters();
    assert_eq!(delete_video.query_params, "id=E6UTz_Doic8")
}

#[test]
fn query_test_build_query_params_get_rating() {
    let get_rating = GetRating::new().build_query_parameters();
    assert_eq!(get_rating.query_params, "id=E6UTz_Doic8")
}

#[test]
fn query_test_panic_with_both_chart_and_my_rating_values() {
    let most_popular = ListVideos {
        chart: "123".to_string(),
        my_rating: "123".to_string(),
        query_params: "".to_string(),
    }
    .build_query_parameters();
    assert!(most_popular.is_err());
}

#[test]
fn query_test_panic_with_neither_chart_nor_my_rating_values() {
    let most_popular = ListVideos {
        chart: "".to_string(),
        my_rating: "".to_string(),
        query_params: "".to_string(),
    }
    .build_query_parameters();
    assert!(most_popular.is_err());
}

#[test]
fn list_query_starts_with_part_list_and_ends_with_filter() {
    let most_popular = ListVideos::create_with_chart_most_popular().build_query_parameters().unwrap();
    assert!(most_popular.query_params.starts_with("part=snippet,statistics,"));
    assert!(most_popular.query_params.ends_with("&chart=mostPopular"));
    let liked = ListVideos::create_with_my_rating_like().build_query_parameters().unwrap();
    assert!(liked.query_params.ends_with("&my_rating=like"));
}

#[test]
fn list_build_error_message() {
    let err = ListVideos::default().build_query_parameters().unwrap_err();
    assert_eq!(err.message(), "expected exactly one of chart, my_rating");
}

#[test]
fn delete_video_build_is_deterministic() {
    let first = DeleteVideo::new().build_query_parameters();
    let second = DeleteVideo::new().build_query_parameters();
    assert_eq!(first.query_params, second.query_params);
    assert_eq!(first.query_params, "id=E6UTz_Doic8");
}

#[test]
fn rate_video_builds_id_and_rating() {
    let like = RateVideo::like_video().build_query_params();
    assert_eq!(like.query_params, "id=E6UTz_Doic8&rating=like");
    let dislike = RateVideo::dislike_video().build_query_params();
    assert_eq!(dislike.query_params, "id=E6UTz_Doic8&rating=dislike");
    assert_eq!(dislike.get_rating(), "dislike");
    assert_eq!(dislike.get_id(), "E6UTz_Doic8");
}

#[test]
fn part_holds_selection() {
    let part = Part::new("snippet,statistics");
    assert_eq!(part.get_part(), "snippet,statistics");
    let every = Part::new_with_every_parameter();
    assert!(every.get_part().starts_with("contentDetails,fileDetails,"));
    assert!(every.get_part().ends_with("topicDetails"));
}

#[test]
fn builders_parse_custom_ids() {
    let delete = DeleteVideo::new().parse_id("abc123").build_query_parameters();
    assert_eq!(delete.query_params, "id=abc123");
    assert_eq!(delete.id(), "abc123");
    let rating = GetRating::new().parse_id("xyz").build_query_parameters();
    assert_eq!(rating.query_params, "id=xyz");
    assert_eq!(rating.id(), "xyz");
}

#[test]
fn list_videos_setters_and_getters() {
    let list = ListVideos::default().parse_chart("mostPopular");
    assert_eq!(list.get_chart(), "mostPopular");
    assert_eq!(list.get_my_rating(), "");
    let built = list.build_query_parameters().unwrap();
    assert!(built.get_query_params().ends_with("&chart=mostPopular"));
}
