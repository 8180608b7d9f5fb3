use avatar_render::compose::ItemAsset;
use avatar_render::job::JobError;
use avatar_render::job::prepare_job;
use avatar_render::palette::BodyColors;

fn item(item_type: i8, location: &str) -> ItemAsset {
    ItemAsset { item_type, location: Some(location.to_string()), texture_path: None }
}

#[test]
fn thumbnail_job_with_zero_items_is_a_reported_error() {
    let r = prepare_job(2, None, Vec::new());
    match r {
        Err(JobError::EmptyThumbnail) => {}
        _ => panic!("expected the empty-thumbnail contract error"),
    }
}

#[test]
fn unknown_job_kind_is_rejected() {
    let r = prepare_job(3, None, vec![item(9, "hat.obj")]);
    match r {
        Err(JobError::UnknownKind) => {}
        _ => panic!("expected the unknown-kind error"),
    }
    assert!(matches!(prepare_job(0, None, Vec::new()), Err(JobError::UnknownKind)));
}

#[test]
fn full_avatar_job_without_a_profile_uses_the_default_palette() {
    let items = vec![item(5, "shirt.png"), item(6, "pants.png")];
    let job = prepare_job(1, None, items).expect("a full-avatar job is always accepted");
    assert_eq!(job.colors.trso, 0xF8F8F8);
    assert_eq!(job.colors.head, 0xF8F8F8);
    assert_eq!(job.colors.rleg, 0xF8F8F8);
    assert_eq!(job.items.len(), 2);
    assert_eq!(job.items[0].item_type, 5);
    assert_eq!(job.items[1].item_type, 6);
}

#[test]
fn full_avatar_job_resolves_its_profile() {
    let profile = BodyColors { trso: 1003, head: 1001, lleg: 23, larm: 9999, rarm: 2, rleg: 40 };
    let job = prepare_job(1, Some(profile), Vec::new()).expect("accepted");
    assert_eq!(job.colors.trso, 0x111111);
    assert_eq!(job.colors.head, 0xF8F8F8);
    assert_eq!(job.colors.lleg, 0x0D69AC);
    assert_eq!(job.colors.larm, 0x000000); // unknown identifier falls back to black
    assert_eq!(job.colors.rarm, 0xA1A5A2);
    assert_eq!(job.colors.rleg, 0xECECEC);
    assert!(job.items.is_empty());
}

#[test]
fn thumbnail_job_keeps_only_its_first_item_and_renders_grey() {
    let items = vec![item(9, "hat.obj"), item(5, "shirt.png")];
    let job = prepare_job(2, None, items).expect("a thumbnail job with items is accepted");
    assert_eq!(job.colors.trso, 0xBFBFBF);
    assert_eq!(job.colors.head, 0xBFBFBF);
    assert_eq!(job.colors.lleg, 0xBFBFBF);
    assert_eq!(job.colors.larm, 0xBFBFBF);
    assert_eq!(job.colors.rarm, 0xBFBFBF);
    assert_eq!(job.colors.rleg, 0xBFBFBF);
    assert_eq!(job.items.len(), 1);
    assert_eq!(job.items[0].item_type, 9);
}

#[test]
fn thumbnail_job_ignores_any_profile_it_was_given() {
    let profile = BodyColors { trso: 1003, head: 1003, lleg: 1003, larm: 1003, rarm: 1003, rleg: 1003 };
    let job = prepare_job(2, Some(profile), vec![item(4, "tee.png")]).expect("accepted");
    assert_eq!(job.colors.trso, 0xBFBFBF);
}
