use demo2replay::bundle::{
    after_write, assemble_bundle, check_request, default_replay_name, file_stem, first_write, plan_bundle,
    read_demo_header, stem_taken, Artifact, DemoHeader, ReplayRequest, WriteState,
};
use demo2replay::error::ReplayError;
use demo2replay::template::{DESCRIPTOR_TEMPLATE, MATERIAL_TEMPLATE};
use demo2replay::timestamp::LocalStamp;

fn header() -> DemoHeader {
    DemoHeader {
        map: String::from("ctf_2fort"),
        nickname: String::from("Alice"),
        server: String::from("Valve"),
        length: format!("{}", 125.40f32),
        ticks: 8000,
    }
}

fn request(name: &str) -> ReplayRequest {
    ReplayRequest {
        header: Some(header()),
        install_root: Some(String::from("/games/tf2")),
        demo_file: Some(String::from("/games/tf2/tf/demos/a.dem")),
        replay_name: String::from(name),
    }
}

fn names(v: &[&str]) -> Vec<String> {
    v.iter().map(|s| s.to_string()).collect()
}

fn stamp() -> LocalStamp {
    LocalStamp { year: 2024, month: 3, day: 15, hour: 21, minute: 30 }
}

fn png_bytes(w: u32, h: u32) -> Vec<u8> {
    let img = image::RgbImage::from_pixel(w, h, image::Rgb([40, 80, 120]));
    let mut bytes: Vec<u8> = Vec::new();
    image::DynamicImage::ImageRgb8(img)
        .write_to(&mut std::io::Cursor::new(&mut bytes), image::ImageFormat::Png)
        .unwrap();
    bytes
}

#[test]
fn stem_is_safe_for_file_names() {
    assert_eq!(file_stem("Alice's Best Play"), "Alice_s Best Play");
    assert_eq!(file_stem("a/b\\c:d"), "a_b_c_d");
    assert_eq!(file_stem(".."), "_");
    assert_eq!(file_stem(""), "");
}

#[test]
fn end_to_end_plan() {
    let entries = names(&["old.dmx", "old.dem", "older.dmx", "notes.txt"]);
    let texture = vec![1u8, 2, 3];
    let plan = plan_bundle(
        &request("Alice's Best Play"),
        &entries,
        &vec![],
        stamp(),
        DESCRIPTOR_TEMPLATE,
        MATERIAL_TEMPLATE,
        texture.clone(),
    )
    .unwrap();
    let stem = "Alice_s Best Play";
    assert_eq!(plan.stem, stem);
    for c in ['\'', '/', '\\', ':', '*', '?', '"', '<', '>', '|'] {
        assert!(!plan.stem.contains(c));
    }
    assert_eq!(plan.descriptor_path, format!("tf/replay/client/replays/{stem}.dmx"));
    assert_eq!(plan.demo_path, format!("tf/replay/client/replays/{stem}.dem"));
    assert_eq!(plan.material_path, format!("tf/materials/vgui/replay/thumbnails/{stem}.vmt"));
    assert_eq!(plan.texture_path, format!("tf/materials/vgui/replay/thumbnails/{stem}.vtf"));
    let d = &plan.descriptor;
    assert!(d.contains("\"map\"\t\"ctf_2fort\""));
    assert!(d.contains("\"length\"\t\"125.4\""));
    assert!(d.contains("\"title\"\t\"Alice's Best Play\""));
    assert!(d.contains("\"recon_filename\"\t\"Alice_s Best Play.dem\""));
    assert!(d.contains("\"handle\"\t\"2\""));
    assert!(d.starts_with("\"replay_2\""));
    assert!(d.contains("\"date\"\t\"7758\""));
    assert!(d.contains(&format!("\"time\"\t\"{}\"", 30 * 32 + 21)));
    assert!(d.contains("\"name\"\t\"Alice_s Best Play\""));
    assert!(!d.contains('%'));
    assert!(plan.material.contains("\"vgui/replay/thumbnails/Alice_s Best Play\""));
    assert!(!plan.material.contains('%'));
    assert_eq!(plan.texture, texture);
}

#[test]
fn end_to_end_assembly_with_thumbnail() {
    let plan = assemble_bundle(
        &request("Alice's Best Play"),
        &vec![],
        &vec![],
        Some(&png_bytes(1024, 768)),
        DESCRIPTOR_TEMPLATE,
        MATERIAL_TEMPLATE,
    )
    .unwrap();
    assert_eq!(plan.stem, "Alice_s Best Play");
    assert!(plan.descriptor.contains("\"map\"\t\"ctf_2fort\""));
    assert!(plan.descriptor.contains("\"handle\"\t\"0\""));
    assert_eq!(&plan.texture[0..4], b"VTF\0");
}

#[test]
fn preconditions_are_checked_in_order() {
    let mut r = request("x");
    assert_eq!(check_request(&r), Ok(()));
    r.demo_file = None;
    assert_eq!(check_request(&r), Err(ReplayError::NoDemoFile));
    r.install_root = None;
    assert_eq!(check_request(&r), Err(ReplayError::NoInstallDir));
    r.header = None;
    assert_eq!(check_request(&r), Err(ReplayError::NoValidDemo));
    let got = assemble_bundle(&r, &vec![], &vec![], Some(&b"junk"[..]), DESCRIPTOR_TEMPLATE, MATERIAL_TEMPLATE);
    assert_eq!(got.err(), Some(ReplayError::NoValidDemo));
}

#[test]
fn bad_thumbnail_stops_assembly() {
    let got = assemble_bundle(
        &request("x"),
        &vec![],
        &vec![],
        Some(&b"junk"[..]),
        DESCRIPTOR_TEMPLATE,
        MATERIAL_TEMPLATE,
    );
    assert_eq!(got.err(), Some(ReplayError::ThumbnailUnreadable));
}

#[test]
fn empty_and_taken_names_are_refused() {
    let got = plan_bundle(&request(""), &vec![], &vec![], stamp(), "t", "m", vec![]);
    assert_eq!(got.err(), Some(ReplayError::EmptyName));
    let got = plan_bundle(&request("a"), &names(&["a.dem"]), &vec![], stamp(), "t", "m", vec![]);
    assert_eq!(got.err(), Some(ReplayError::NameTaken));
    let got = plan_bundle(&request("a"), &vec![], &names(&["a.vtf"]), stamp(), "t", "m", vec![]);
    assert_eq!(got.err(), Some(ReplayError::NameTaken));
    let got = plan_bundle(&request("a"), &names(&["A.dmx", "a.txt"]), &vec![], stamp(), "t", "m", vec![]);
    assert!(got.is_ok());
}

#[test]
fn stem_taken_checks_both_folders() {
    let s = String::from("r");
    assert!(stem_taken(&s, &names(&["r.dmx"]), &vec![]));
    assert!(stem_taken(&s, &vec![], &names(&["r.vmt"])));
    assert!(!stem_taken(&s, &names(&["r.vmt"]), &names(&["r.dmx"])));
}

#[test]
fn unsupported_year_is_refused() {
    let early = LocalStamp { year: 2001, month: 1, day: 1, hour: 0, minute: 0 };
    let got = plan_bundle(&request("a"), &vec![], &vec![], early, "t", "m", vec![]);
    assert_eq!(got.err(), Some(ReplayError::UnsupportedYear(2001)));
}

#[test]
fn writes_follow_fixed_order() {
    let mut s = first_write();
    assert_eq!(s, WriteState::Pending(Artifact::Descriptor));
    let mut order = vec![];
    while let WriteState::Pending(a) = s {
        order.push(a);
        s = after_write(s, true);
    }
    assert_eq!(order, vec![Artifact::Descriptor, Artifact::Demo, Artifact::Material, Artifact::Texture]);
    assert_eq!(s, WriteState::Done);
    assert_eq!(after_write(WriteState::Pending(Artifact::Demo), false), WriteState::Failed(Artifact::Demo));
    assert_eq!(after_write(WriteState::Failed(Artifact::Demo), true), WriteState::Failed(Artifact::Demo));
    assert_eq!(after_write(WriteState::Done, false), WriteState::Done);
}

#[test]
fn unreadable_demo_header() {
    assert_eq!(read_demo_header(b"short").err(), Some(ReplayError::DemoHeaderUnreadable));
}

#[test]
fn default_thumbnail_is_black_canvas() {
    let plan = assemble_bundle(&request("x"), &vec![], &vec![], None, DESCRIPTOR_TEMPLATE, MATERIAL_TEMPLATE)
        .unwrap();
    assert_eq!(&plan.texture[0..4], b"VTF\0");
    assert_eq!(plan.texture.len(), 64 + 512 * 512 * 3);
    assert!(plan.texture[64..].iter().all(|&v| v == 0));
    assert_eq!(plan.stem, "x");
}

#[test]
fn default_name_from_clock_and_header() {
    let s = LocalStamp { year: 2024, month: 3, day: 5, hour: 9, minute: 7 };
    assert_eq!(default_replay_name(s, &header()), "2024-3-5 9:7 - Alice on ctf_2fort");
    let s = LocalStamp { year: -44, month: 12, day: 31, hour: 23, minute: 59 };
    assert_eq!(default_replay_name(s, &header()), "-44-12-31 23:59 - Alice on ctf_2fort");
}
