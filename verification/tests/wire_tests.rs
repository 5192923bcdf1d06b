use mpv_control::wire::{frame_request, Request};

#[test]
fn stop_wire_line() {
    let line = frame_request(&Request::Stop);
    assert_eq!(line, b"{\"command\":[\"stop\"]}\n".to_vec());
}

#[test]
fn pause_wire_line() {
    let line = frame_request(&Request::SetPause { paused: true });
    assert_eq!(line, b"{\"command\":[\"set_property\",\"pause\",true]}\n".to_vec());
}

#[test]
fn resume_wire_line() {
    let line = frame_request(&Request::SetPause { paused: false });
    assert_eq!(line, b"{\"command\":[\"set_property\",\"pause\",false]}\n".to_vec());
}

#[test]
fn volume_wire_line() {
    let line = frame_request(&Request::SetVolume { volume: 42 });
    assert_eq!(line, b"{\"command\":[\"set_property\",\"volume\",42]}\n".to_vec());
}

#[test]
fn volume_bounds_wire_lines() {
    let low = frame_request(&Request::SetVolume { volume: 0 });
    assert_eq!(low, b"{\"command\":[\"set_property\",\"volume\",0]}\n".to_vec());
    let high = frame_request(&Request::SetVolume { volume: 100 });
    assert_eq!(high, b"{\"command\":[\"set_property\",\"volume\",100]}\n".to_vec());
}

#[test]
fn seek_wire_lines() {
    let forward = frame_request(&Request::Seek { seconds: 30 });
    assert_eq!(forward, b"{\"command\":[\"seek\",30,\"relative\"]}\n".to_vec());
    let backward = frame_request(&Request::Seek { seconds: -5 });
    assert_eq!(backward, b"{\"command\":[\"seek\",-5,\"relative\"]}\n".to_vec());
}

#[test]
fn seek_extreme_offsets() {
    let line = frame_request(&Request::Seek { seconds: i64::MIN });
    assert_eq!(
        line,
        b"{\"command\":[\"seek\",-9223372036854775808,\"relative\"]}\n".to_vec()
    );
    let line = frame_request(&Request::Seek { seconds: i64::MAX });
    assert_eq!(
        line,
        b"{\"command\":[\"seek\",9223372036854775807,\"relative\"]}\n".to_vec()
    );
}

#[test]
fn loadfile_wire_line() {
    let line = frame_request(&Request::LoadFile {
        path: String::from("/music/song.mp3"),
    });
    assert_eq!(
        line,
        b"{\"command\":[\"loadfile\",\"/music/song.mp3\",\"replace\"]}\n".to_vec()
    );
}

#[test]
fn loadfile_escapes_quotes_and_backslashes() {
    let line = frame_request(&Request::LoadFile {
        path: String::from("a\"b\\c"),
    });
    assert_eq!(
        line,
        b"{\"command\":[\"loadfile\",\"a\\\"b\\\\c\",\"replace\"]}\n".to_vec()
    );
}

#[test]
fn loadfile_escapes_control_bytes() {
    let line = frame_request(&Request::LoadFile {
        path: String::from("a\nb\tc"),
    });
    assert_eq!(
        line,
        b"{\"command\":[\"loadfile\",\"a\\u000ab\\u0009c\",\"replace\"]}\n".to_vec()
    );
}

#[test]
fn loadfile_passes_utf8_through() {
    let line = frame_request(&Request::LoadFile {
        path: String::from("/tmp/caf\u{e9}.mp3"),
    });
    let mut expected: Vec<u8> = b"{\"command\":[\"loadfile\",\"/tmp/caf".to_vec();
    expected.extend_from_slice("\u{e9}".as_bytes());
    expected.extend_from_slice(b".mp3\",\"replace\"]}\n");
    assert_eq!(line, expected);
}

#[test]
fn framed_lines_are_valid_json() {
    let requests = vec![
        Request::LoadFile {
            path: String::from("we\"ird\\pa\nth"),
        },
        Request::SetPause { paused: true },
        Request::SetVolume { volume: 77 },
        Request::Stop,
        Request::Seek { seconds: -120 },
    ];
    for request in &requests {
        let line = frame_request(request);
        assert_eq!(*line.last().unwrap(), b'\n');
        // The delimiter appears exactly once, at the end: each request is
        // one line even when the path itself held a newline.
        assert!(!line[..line.len() - 1].contains(&b'\n'));
        let value: serde_json::Value = serde_json::from_slice(&line[..line.len() - 1]).unwrap();
        let command = value.get("command").unwrap().as_array().unwrap();
        assert!(!command.is_empty());
        assert!(command[0].is_string());
    }
}

#[test]
fn loadfile_roundtrips_path_through_json() {
    let path = "od\u{e9}d \"quoted\" back\\slash\tend";
    let line = frame_request(&Request::LoadFile {
        path: String::from(path),
    });
    let value: serde_json::Value = serde_json::from_slice(&line[..line.len() - 1]).unwrap();
    let command = value.get("command").unwrap().as_array().unwrap();
    assert_eq!(command[0].as_str().unwrap(), "loadfile");
    assert_eq!(command[1].as_str().unwrap(), path);
    assert_eq!(command[2].as_str().unwrap(), "replace");
}
