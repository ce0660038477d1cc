use flowd::component::{take_ports, ConstructError, Phase};
use flowd::components::filereader::FileReaderComponent;
use flowd::components::splitlines::SplitLinesComponent;
use flowd::components::trim::TrimComponent;
use flowd::ports::PortMap;
use flowd::text::{decode_text, split_lines, trim_packet};

fn ip(s: &str) -> Vec<u8> {
    s.as_bytes().to_vec()
}

#[test]
fn split_three_lines() {
    let lines = SplitLinesComponent::<(), ()>::transform(b"alpha\nbeta\ngamma").unwrap();
    assert_eq!(lines, vec![ip("alpha"), ip("beta"), ip("gamma")]);
}

#[test]
fn split_like_str_lines() {
    let cases: Vec<&str> = vec!["", "\n", "a\n", "a\r\nb\r\n", "a\n\nb", "x\r", "\r\n", "a\n\r", "no newline"];
    for c in cases {
        let got = split_lines(c.as_bytes()).unwrap();
        let want: Vec<Vec<u8>> = c.lines().map(|l| l.as_bytes().to_vec()).collect();
        assert_eq!(got, want, "input {:?}", c);
    }
}

#[test]
fn split_rejects_invalid_utf8() {
    assert_eq!(split_lines(&[0xff, b'\n']), None);
}

#[test]
fn trim_scenario() {
    assert_eq!(TrimComponent::<(), ()>::transform(b"  hi  \n"), Some(ip("hi")));
}

#[test]
fn trim_unicode_white_space() {
    assert_eq!(trim_packet("\u{3000}\u{a0} x y\u{2028}\t".as_bytes()), Some(ip("x y")));
    assert_eq!(trim_packet(b" \t\n"), Some(Vec::new()));
    assert_eq!(trim_packet(b""), Some(Vec::new()));
    assert_eq!(trim_packet(&[b' ', 0xc3]), None);
}

#[test]
fn file_reader_takes_path() {
    assert_eq!(FileReaderComponent::<(), ()>::path_of(b"/tmp/a"), Some(String::from("/tmp/a")));
    assert_eq!(FileReaderComponent::<(), ()>::path_of(&[0x80]), None);
    assert_eq!(decode_text("é".as_bytes()), Some(String::from("é")));
}

#[test]
fn port_map_insert_remove() {
    let mut m: PortMap<u32> = PortMap::new();
    m.insert(String::from("IN"), 1);
    m.insert(String::from("OUT"), 2);
    m.insert(String::from("IN"), 3);
    assert_eq!(m.len(), 2);
    assert!(m.contains("IN"));
    assert_eq!(m.remove("IN"), Some(3));
    assert_eq!(m.remove("IN"), None);
    assert!(!m.contains("IN"));
    assert_eq!(m.remove("OUT"), Some(2));
    assert_eq!(m.len(), 0);
}

#[test]
fn constructor_takes_declared_ports() {
    let mut ins: PortMap<u32> = PortMap::new();
    let mut outs: PortMap<u32> = PortMap::new();
    ins.insert(String::from("IN"), 7);
    ins.insert(String::from("EXTRA"), 8);
    outs.insert(String::from("OUT"), 9);
    let c = TrimComponent::new(&mut ins, &mut outs).unwrap();
    assert_eq!(c.inn, 7);
    assert_eq!(c.out, 9);
    assert_eq!(c.life.phase(), Phase::Running);
    assert!(!ins.contains("IN"));
    assert!(ins.contains("EXTRA"));
    assert_eq!(outs.len(), 0);
}

#[test]
fn constructor_reports_missing_inport() {
    let mut ins: PortMap<u32> = PortMap::new();
    let mut outs: PortMap<u32> = PortMap::new();
    ins.insert(String::from("IN"), 1);
    outs.insert(String::from("OUT"), 2);
    match FileReaderComponent::new(&mut ins, &mut outs) {
        Err(ConstructError::MissingInport(n)) => assert_eq!(n, "NAMES"),
        _ => panic!("expected a missing NAMES port"),
    }
    assert!(ins.contains("IN"));
    assert!(outs.contains("OUT"));
}

#[test]
fn constructor_reports_missing_outport() {
    let mut ins: PortMap<u32> = PortMap::new();
    let mut outs: PortMap<u32> = PortMap::new();
    ins.insert(String::from("IN"), 1);
    match take_ports(&mut ins, &mut outs, "IN", "OUT") {
        Err(ConstructError::MissingOutport(n)) => assert_eq!(n, "OUT"),
        _ => panic!("expected a missing OUT port"),
    }
    assert!(ins.contains("IN"));
}

#[test]
fn metadata_of_builtins() {
    let m = SplitLinesComponent::<(), ()>::get_metadata();
    assert_eq!(m.name, "SplitLines");
    assert_eq!(m.icon, "cut");
    assert!(!m.subgraph);
    assert_eq!(m.in_ports.len(), 1);
    assert_eq!(m.in_ports[0].name, "IN");
    assert!(m.in_ports[0].required);
    assert_eq!(m.in_ports[0].allowed_type, "any");
    assert_eq!(m.out_ports[0].name, "OUT");
    let f = FileReaderComponent::<(), ()>::get_metadata();
    assert_eq!(f.name, "FileReader");
    assert_eq!(f.icon, "file");
    assert_eq!(f.in_ports[0].name, "NAMES");
    let t = TrimComponent::<(), ()>::get_metadata();
    assert_eq!(t.name, "Trim");
    assert_eq!(t.out_ports[0].description, "trimmed strings");
}
