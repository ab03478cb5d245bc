use termusic_types::player::{
    DaemonUpdate as GrpcDaemonUpdate, DaemonUpdateChangedTrack as GrpcChangedTrack,
    UpdateType as GrpcUpdateType,
};
use termusic_types::types::{
    DLMsg, DaemonUpdate, DaemonUpdateChangedTrack, ImageWrapper, UnknownDaemonUpdate, YoutubeError,
    YoutubeOptions,
    YoutubeVideo,
};

fn video(title: &str) -> YoutubeVideo {
    YoutubeVideo {
        title: title.to_string(),
        length_seconds: 42,
        video_id: format!("id-{title}"),
    }
}

#[test]
fn daemon_update_to_grpc() {
    let u = DaemonUpdate::ChangedTrack(DaemonUpdateChangedTrack { new_track_index: 7 });
    let g = GrpcDaemonUpdate::from(u);
    assert_eq!(
        g,
        GrpcDaemonUpdate {
            update_type: Some(GrpcUpdateType::ChangedTrack(GrpcChangedTrack {
                new_track_index: 7
            })),
        }
    );
}

#[test]
fn daemon_update_from_grpc() {
    let g = GrpcDaemonUpdate {
        update_type: Some(GrpcUpdateType::ChangedTrack(GrpcChangedTrack {
            new_track_index: 3,
        })),
    };
    assert_eq!(
        DaemonUpdate::try_from(g),
        Ok(DaemonUpdate::ChangedTrack(DaemonUpdateChangedTrack {
            new_track_index: 3
        }))
    );
}

#[test]
fn daemon_update_from_empty_grpc_fails() {
    let g = GrpcDaemonUpdate { update_type: None };
    assert_eq!(DaemonUpdate::try_from(g), Err(UnknownDaemonUpdate));
}

#[test]
fn daemon_update_round_trip() {
    for index in [0u32, 1, 99, u32::MAX] {
        let u = DaemonUpdate::ChangedTrack(DaemonUpdateChangedTrack {
            new_track_index: index,
        });
        assert_eq!(DaemonUpdate::try_from(GrpcDaemonUpdate::from(u.clone())), Ok(u));
    }
}

#[test]
fn youtube_default_is_first_empty_page() {
    let o = YoutubeOptions::default();
    assert!(o.items.is_empty());
    assert_eq!(o.page(), 1);
}

#[test]
fn youtube_get_by_index() {
    let o = YoutubeOptions {
        items: vec![video("a"), video("b")],
        page: 1,
    };
    assert_eq!(o.get_by_index(0), Ok(&video("a")));
    assert_eq!(o.get_by_index(1), Ok(&video("b")));
    assert_eq!(o.get_by_index(2), Err(YoutubeError::IndexNotFound));
    assert_eq!(YoutubeOptions::default().get_by_index(0), Err(YoutubeError::IndexNotFound));
}

#[test]
fn youtube_error_message() {
    assert_eq!(YoutubeError::IndexNotFound.message(), "index not found");
}

#[test]
fn youtube_prev_page_on_first_page_does_nothing() {
    let mut o = YoutubeOptions {
        items: vec![video("a")],
        page: 1,
    };
    assert_eq!(o.prev_page(), None);
    assert_eq!(o.page(), 1);
    assert_eq!(o.items, vec![video("a")]);
}

#[test]
fn youtube_prev_page_steps_back() {
    let mut o = YoutubeOptions {
        items: vec![],
        page: 3,
    };
    assert_eq!(o.prev_page(), Some(2));
    assert_eq!(o.page(), 2);
    assert_eq!(o.prev_page(), Some(1));
    assert_eq!(o.prev_page(), None);
    assert_eq!(o.page(), 1);
}

#[test]
fn youtube_next_page_steps_forward() {
    let mut o = YoutubeOptions::default();
    assert_eq!(o.next_page(), 2);
    assert_eq!(o.next_page(), 3);
    assert_eq!(o.page(), 3);
}

#[test]
fn youtube_next_then_prev_returns() {
    let mut o = YoutubeOptions {
        items: vec![],
        page: 5,
    };
    o.next_page();
    o.prev_page();
    assert_eq!(o.page(), 5);
}

#[test]
fn youtube_search_result_replaces_items() {
    let mut o = YoutubeOptions {
        items: vec![video("old")],
        page: 1,
    };
    let page = o.next_page();
    let r: Result<(), String> = o.apply_search_result(Ok(vec![video("x"), video("y")]));
    assert_eq!(r, Ok(()));
    assert_eq!(page, 2);
    assert_eq!(o.page(), 2);
    assert_eq!(o.items, vec![video("x"), video("y")]);
}

#[test]
fn youtube_failed_search_keeps_items_but_not_page() {
    let mut o = YoutubeOptions {
        items: vec![video("old")],
        page: 4,
    };
    o.next_page();
    let r = o.apply_search_result(Err("network down".to_string()));
    assert_eq!(r, Err("network down".to_string()));
    assert_eq!(o.page(), 5);
    assert_eq!(o.items, vec![video("old")]);
}

#[test]
fn unknown_daemon_update_message() {
    let err = DaemonUpdate::try_from(GrpcDaemonUpdate { update_type: None }).unwrap_err();
    assert_eq!(
        err.message(),
        "Could not convert proto DaemonUpdate to rust DaemonUpdate"
    );
}

#[test]
fn youtube_k_next_pages_advance_by_k() {
    let mut o = YoutubeOptions {
        items: vec![video("start")],
        page: 2,
    };
    let outcomes: Vec<Result<Vec<YoutubeVideo>, String>> = vec![
        Err("timeout".to_string()),
        Ok(vec![video("p4")]),
        Err("bad gateway".to_string()),
        Err("timeout".to_string()),
    ];
    for outcome in outcomes {
        o.next_page();
        let _ = o.apply_search_result(outcome);
    }
    assert_eq!(o.page(), 6);
    assert_eq!(o.items, vec![video("p4")]);
}

#[test]
fn download_message_carries_an_image() {
    let img = ImageWrapper {
        data: image::DynamicImage::new_rgb8(2, 3),
    };
    let msg = DLMsg::FetchPhotoSuccess(img.clone());
    assert!(msg.clone() == msg);
    assert!(img.clone() == img);
    let show = DLMsg::MessageShow(("title".to_string(), "text".to_string()));
    assert!(show.clone() == show);
    assert!(show != DLMsg::MessageHide(("title".to_string(), "text".to_string())));
}
