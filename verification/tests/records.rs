use mplayer::metadata::{show, ImageType, MimeType, Picture};
use mplayer::music::{or_unknown, Labels, Music, Probe};
use mplayer::server::{path_from_addr, Server};

fn read(file_name: &str, title: Option<&str>) -> Probe {
    Probe::Read {
        file_name: String::from(file_name),
        length: 90_000,
        tag: Some(Labels { title: title.map(String::from), artist: None, genre: None }),
    }
}

#[test]
fn music_new_takes_the_title_from_the_tag() {
    let music = Music::new(String::from("/music/a.flac"), read("a.flac", Some("Aria")));
    assert_eq!(music.title, "Aria");
    assert_eq!(music.length, 0);
    assert_eq!(music.path, "/music/a.flac");
    assert_eq!(music.artist, "Unknown");
    assert_eq!(music.genre, "Unknown");
}

#[test]
fn music_new_falls_back_to_the_file_name() {
    let music = Music::new(String::from("/music/a.flac"), read("a.flac", None));
    assert_eq!(music.title, "a.flac");
    let untagged = Probe::Read { file_name: String::from("b.wav"), length: 5, tag: None };
    let music = Music::new(String::from("/music/b.wav"), untagged);
    assert_eq!(music.title, "b.wav");
    assert_eq!(music.length, 0);
}

#[test]
fn music_new_of_a_file_that_cannot_be_probed() {
    for probe in [Probe::Unopened, Probe::Unreadable] {
        let music = Music::new(String::from("gone.mp3"), probe);
        assert_eq!(music.title, "Default");
        assert_eq!(music.artist, "Unknown");
        assert_eq!(music.genre, "Unknown");
        assert_eq!(music.length, 0);
        assert_eq!(music.path, "gone.mp3");
    }
}

#[test]
fn music_default_is_empty() {
    let music = Music::default();
    assert_eq!(music.title, "");
    assert_eq!(music.artist, "");
    assert_eq!(music.genre, "");
    assert_eq!(music.path, "");
    assert_eq!(music.length, 0);
}

#[test]
fn fields_without_a_value_read_unknown() {
    assert_eq!(or_unknown(None), "Unknown");
    assert_eq!(or_unknown(Some(String::from("x\0y"))), "x\0y");
    assert_eq!(show(None), "Unknown");
    assert_eq!(show(Some(String::from("x\0y"))), "xy");
    assert_eq!(show(Some(String::new())), "");
}

#[test]
fn blank_picture_is_one_zero_byte_of_jpeg() {
    let picture = Picture::blank();
    assert_eq!(picture.data, vec![0u8]);
    assert_eq!(picture.tp, ImageType(MimeType::Jpeg));
}

#[test]
fn image_type_names() {
    assert_eq!(ImageType(MimeType::Png).name(), "Png");
    assert_eq!(ImageType(MimeType::Jpeg).name(), "Jpeg");
    assert_eq!(ImageType(MimeType::Tiff).name(), "Tiff");
    assert_eq!(ImageType(MimeType::Bmp).name(), "Bmp");
    assert_eq!(ImageType(MimeType::Gif).name(), "Gif");
}

#[test]
fn image_type_name_reads_back_as_the_same_type() {
    for kind in [MimeType::Png, MimeType::Jpeg, MimeType::Tiff, MimeType::Bmp, MimeType::Gif] {
        let image = ImageType(kind);
        assert_eq!(ImageType::from_name(&image.name()), Some(image));
    }
}

#[test]
fn image_type_is_found_anywhere_in_the_text() {
    assert_eq!(ImageType::from_name("MimeType::Tiff"), Some(ImageType(MimeType::Tiff)));
    assert_eq!(ImageType::from_name("a Gif, I think"), Some(ImageType(MimeType::Gif)));
    assert_eq!(ImageType::from_name("xBmp"), Some(ImageType(MimeType::Bmp)));
}

#[test]
fn image_type_takes_the_first_name_in_its_own_order() {
    assert_eq!(ImageType::from_name("Gif Bmp Tiff Png Jpeg"), Some(ImageType(MimeType::Jpeg)));
    assert_eq!(ImageType::from_name("Gif Bmp Tiff Png"), Some(ImageType(MimeType::Png)));
    assert_eq!(ImageType::from_name("Gif Bmp Tiff"), Some(ImageType(MimeType::Tiff)));
    assert_eq!(ImageType::from_name("Gif Bmp"), Some(ImageType(MimeType::Bmp)));
}

#[test]
fn image_type_of_an_unknown_name_is_none() {
    assert_eq!(ImageType::from_name(""), None);
    assert_eq!(ImageType::from_name("jpeg"), None);
    assert_eq!(ImageType::from_name("image/png"), None);
    assert_eq!(ImageType::from_name("Jpe g"), None);
    assert_eq!(ImageType::from_name("Webp"), None);
}

#[test]
fn path_from_addr_turns_dots_into_slashes() {
    assert_eq!(path_from_addr(&String::from("org.zbus.mplayer")), "/org/zbus/mplayer");
    assert_eq!(path_from_addr(&String::from("name")), "/name");
    assert_eq!(path_from_addr(&String::new()), "/");
    assert_eq!(path_from_addr(&String::from("a..b.")), "/a//b/");
    assert_eq!(path_from_addr(&String::from("/a.b")), "//a/b");
}

#[test]
fn server_new_derives_the_object_path() {
    let server = Server::new(String::from("com.example.player"));
    assert_eq!(server.dbus_addr(), "com.example.player");
    assert_eq!(server.dbus_interf(), "/com/example/player");
    assert_eq!(server.app_name(), "mplayer");
    assert_eq!(server.player().current_volume(), 5000);
    assert_eq!(server.player().path(), "");
    assert!(!server.player().is_muted());
    assert!(!server.player().has_stream());
}

#[test]
fn server_default_is_the_usual_service() {
    let server = Server::default();
    assert_eq!(server.dbus_addr(), "org.zbus.mplayer");
    assert_eq!(server.dbus_interf(), "/org/zbus/mplayer");
    assert_eq!(server.dbus_interf(), path_from_addr(&String::from(server.dbus_addr())));
    assert_eq!(server.app_name(), "mplayer");
    let player = server.into_player();
    assert_eq!(player.current_volume(), 5000);
    assert_eq!(player.muted_volume(), 0);
    assert_eq!(player.song_length(), 0);
    assert!(player.is_idle());
}
