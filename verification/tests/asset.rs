use sneck::snake::asset::{brack_recp, peel, SnakeAssetError, SnakeBlock, SnakeLoader, SnakeType};
use sneck::snake::rendering::{SnakeBody, SnakeFrame};
use sneck::snake::text::{chars_of, Span};
use sneck::snake::{SnakeId, SnakePiece};

fn blocks_of(text: &str) -> Vec<Result<String, String>> {
    let chars = chars_of(text);
    let mut blocks = SnakeBlock::new(&chars, Span { start: 0, end: chars.len() });
    let mut out = Vec::new();
    while let Some(item) = blocks.next() {
        match item {
            Ok(span) => out.push(Ok(chars[span.start..span.end].iter().collect())),
            Err(e) => {
                out.push(Err(format!("{:?}", e)));
                break;
            }
        }
    }
    out
}

fn path(p: &Option<String>) -> &str {
    p.as_deref().unwrap_or("")
}

#[test]
fn blocks_split_on_top_level_commas() {
    assert_eq!(
        blocks_of("  a: 1, b: {x, y}, c: \"p,q\"  "),
        vec![
            Ok("a: 1".to_string()),
            Ok("b: {x, y}".to_string()),
            Ok("c: \"p,q\"".to_string())
        ]
    );
}

#[test]
fn blocks_stop_at_an_empty_entry() {
    assert_eq!(blocks_of("a, , b"), vec![Ok("a".to_string())]);
    assert_eq!(blocks_of("a,"), vec![Ok("a".to_string())]);
    assert_eq!(blocks_of(""), Vec::<Result<String, String>>::new());
}

#[test]
fn blocks_respect_escapes_inside_quotes() {
    assert_eq!(
        blocks_of("k: \"a\\\",b\", z"),
        vec![Ok("k: \"a\\\",b\"".to_string()), Ok("z".to_string())]
    );
}

#[test]
fn blocks_report_bracket_errors() {
    assert_eq!(
        blocks_of("a: (b]"),
        vec![Err("MismatchedBrackets(']', ')')".to_string())]
    );
    assert_eq!(
        blocks_of("a: b}"),
        vec![Err("UnmatchedClosingBracket('}')".to_string())]
    );
    // brackets inside quotes do not count
    assert_eq!(blocks_of("a: \"}\""), vec![Ok("a: \"}\"".to_string())]);
}

#[test]
fn brack_recp_pairs_brackets() {
    assert_eq!(brack_recp('{'), '}');
    assert_eq!(brack_recp('}'), '{');
    assert_eq!(brack_recp('('), ')');
    assert_eq!(brack_recp(')'), '(');
    assert_eq!(brack_recp('['), ']');
    assert_eq!(brack_recp(']'), '[');
    assert_eq!(brack_recp('"'), '"');
    assert_eq!(brack_recp('x'), 'x');
    for c in ['{', '}', '(', ')', '[', ']', 'a', '"'] {
        assert_eq!(brack_recp(brack_recp(c)), c);
    }
}

fn peel_str(text: &str, wrapping: char) -> Result<String, String> {
    let chars = chars_of(text);
    match peel(&chars, Span { start: 0, end: chars.len() }, wrapping) {
        Ok(span) => Ok(chars[span.start..span.end].iter().collect()),
        Err(e) => Err(format!("{:?}", e)),
    }
}

#[test]
fn peel_strips_the_wrapping() {
    assert_eq!(peel_str("  { a, b }  ", '{'), Ok(" a, b ".to_string()));
    assert_eq!(peel_str("\"path\"", '"'), Ok("path".to_string()));
    assert_eq!(peel_str("a }", '{'), Err("BlockNotWrappedIn('{', true)".to_string()));
    assert_eq!(peel_str("{ a", '{'), Err("BlockNotWrappedIn('}', false)".to_string()));
    assert_eq!(peel_str("\"", '"'), Err("BlockNotWrappedIn('\"', false)".to_string()));
    assert_eq!(peel_str("", '"'), Err("BlockNotWrappedIn('\"', true)".to_string()));
}

#[test]
fn parse_single_frame_asset() {
    let data = "id: ArrowBlue,\nbody: {\n  head: \"a/head.png\",\n  straight: \" b.png \",\n  curve: \"c.png\",\n  tail: \"d.png\",\n},\n";
    let t = SnakeLoader::parse_snake_asset(data).unwrap();
    assert_eq!(t.id, SnakeId::ArrowBlue);
    match &t.body {
        SnakeBody::Single(f) => {
            assert_eq!(path(&f.head), "a/head.png");
            assert_eq!(path(&f.body_straight), "b.png");
            assert_eq!(path(&f.body_curve), "c.png");
            assert_eq!(path(&f.tail), "d.png");
        }
        SnakeBody::Animated(_) => panic!("expected a still body"),
    }
}

#[test]
fn parse_animated_asset_keeps_frame_order() {
    let data = "body: {tail: \"t0\"}, id: spottedwhite, body: {tail: \"t1\"}, body: {head: \"h2\"}";
    let t = SnakeLoader::parse_snake_asset(data).unwrap();
    assert_eq!(t.id, SnakeId::SpottedWhite);
    match &t.body {
        SnakeBody::Animated(frames) => {
            assert_eq!(frames.len(), 3);
            assert_eq!(path(&frames[0].tail), "t0");
            assert_eq!(path(&frames[1].tail), "t1");
            assert!(frames[2].tail.is_none());
            assert_eq!(path(&frames[2].head), "h2");
        }
        SnakeBody::Single(_) => panic!("expected an animation"),
    }
    assert_eq!(path(t.body.tail()), "t0");
    assert_eq!(path(&t.get_frame(4).tail), "t1");
    assert_eq!(path(&t.get_frame(5).head), "h2");
}

#[test]
fn parse_later_id_wins() {
    let t = SnakeLoader::parse_snake_asset("id: GearRickA, body: {}, id: EYEBALLBLUEA").unwrap();
    assert_eq!(t.id, SnakeId::EyeballBlueA);
    match &t.body {
        SnakeBody::Single(f) => {
            assert!(f.head.is_none() && f.tail.is_none());
        }
        SnakeBody::Animated(_) => panic!("expected a still body"),
    }
}

fn parse_err(data: &str) -> String {
    match SnakeLoader::parse_snake_asset(data) {
        Ok(_) => "ok".to_string(),
        Err(e) => format!("{:?}", e),
    }
}

#[test]
fn parse_errors() {
    assert_eq!(parse_err("body: {}"), "MissingFields(\"id\")");
    assert_eq!(parse_err("id: ArrowBlue"), "MissingFields(\"body\")");
    assert_eq!(parse_err(""), "MissingFields(\"id\")");
    assert_eq!(parse_err("id ArrowBlue"), "MalformedKeyValue");
    assert_eq!(parse_err("id: BlueArrow, body: {}"), "MalformedKeyValue");
    assert_eq!(parse_err("id: ArrowBlue, skin: 3"), "UnknownKey(\"skin\", \"root\")");
    assert_eq!(
        parse_err("id: ArrowBlue, body: {eye: \"x\"}"),
        "UnknownKey(\"eye\", \"body\")"
    );
    assert_eq!(
        parse_err("id: ArrowBlue, body: {eye: x}"),
        "BlockNotWrappedIn('\"', true)"
    );
    assert_eq!(
        parse_err("id: ArrowBlue, body: head: \"x\""),
        "BlockNotWrappedIn('{', true)"
    );
    assert_eq!(parse_err("id: ArrowBlue, body: {head \"x\"}"), "MalformedKeyValue");
    assert_eq!(parse_err("id: ArrowBlue, body: {(]}"), "MismatchedBrackets(']', ')')");
    assert_eq!(parse_err("id: ArrowBlue], body: {}"), "UnmatchedClosingBracket(']')");
}

#[test]
fn parse_reads_every_skin_name() {
    for id in SnakeId::all() {
        let data = format!("id: {}, body: {{}}", id.name().to_lowercase());
        let t = SnakeLoader::parse_snake_asset(&data).unwrap();
        assert_eq!(t.id, id);
    }
}

#[test]
fn frame_segments_and_periodic_frames() {
    let frame = |n: u8| SnakeFrame {
        head: n,
        body_straight: n + 1,
        body_curve: n + 2,
        tail: n + 3,
    };
    assert_eq!(*frame(10).get_segment(&SnakePiece::Head), 10);
    assert_eq!(*frame(10).get_segment(&SnakePiece::BodyStraight), 11);
    assert_eq!(*frame(10).get_segment(&SnakePiece::BodyCurve), 12);
    assert_eq!(*frame(10).get_segment(&SnakePiece::Tail), 13);
    let t = SnakeType { id: SnakeId::ArrowBlue, body: SnakeBody::Animated(vec![frame(0), frame(10), frame(20)]) };
    for i in 0..9usize {
        assert_eq!(t.get_frame(i).head, t.get_frame(i + 3).head);
    }
    assert_eq!(t.get_frame(7).head, 10);
    let still = SnakeType { id: SnakeId::ArrowBlue, body: SnakeBody::Single(frame(5)) };
    assert_eq!(still.get_frame(1234).tail, 8);
    assert_eq!(*still.body.tail(), 8);
}

#[test]
fn with_frame_builds_bodies() {
    let frame = |n: u8| SnakeFrame { head: n, body_straight: n, body_curve: n, tail: n };
    let b = SnakeBody::with_frame(None, frame(1));
    assert!(matches!(b, SnakeBody::Single(_)));
    let b = SnakeBody::with_frame(Some(b), frame(2));
    match &b {
        SnakeBody::Animated(v) => assert_eq!(v.iter().map(|f| f.head).collect::<Vec<_>>(), vec![1, 2]),
        _ => panic!("expected an animation"),
    }
    let b = SnakeBody::with_frame(Some(b), frame(3));
    match &b {
        SnakeBody::Animated(v) => assert_eq!(v.iter().map(|f| f.head).collect::<Vec<_>>(), vec![1, 2, 3]),
        _ => panic!("expected an animation"),
    }
}

#[test]
fn error_debug_names_io_errors() {
    let e = SnakeAssetError::IoError("disk".to_string());
    assert_eq!(format!("{:?}", e), "IoError(\"disk\")");
}

#[test]
fn blocks_trim_unicode_whitespace() {
    assert_eq!(
        blocks_of("\u{3000}a\u{a0},\t b \u{2028}"),
        vec![Ok("a".to_string()), Ok("b".to_string())]
    );
    let t = SnakeLoader::parse_snake_asset("\u{feff}id: ArrowBlue, body: {}");
    // U+FEFF is not whitespace, so the key is not `id`
    assert!(matches!(t, Err(SnakeAssetError::UnknownKey(_, "root"))));
}
