use khaiii::AnalyzePlan;
use khaiii::EngineEvent;
use khaiii::KhaiiiApi;
use khaiii::KhaiiiMorph;
use khaiii::KhaiiiWord;
use khaiii::OpenStep;
use khaiii::RawMorph;
use khaiii::RawWord;

/// An open session for calling the result constructors.
fn words_session() -> KhaiiiApi {
    let (flow, _action) = KhaiiiApi::new("/rsc".to_string(), "".to_string(), "warn".to_string());
    let flow = match flow.on_event(EngineEvent::Status(0)) {
        OpenStep::Continue(f, _) => f,
        _ => panic!("expected the open call next"),
    };
    match flow.on_event(EngineEvent::Handle(0)) {
        OpenStep::Opened(api) => api,
        _ => panic!("expected an open session"),
    }
}

fn raw_morph(lex: &str, tag: &str, begin: i32, length: i32) -> RawMorph {
    RawMorph { lex: Some(lex.to_string()), tag: Some(tag.to_string()), begin, length }
}

fn morph(lex: &str, tag: &str, begin: i32, length: i32) -> KhaiiiMorph {
    KhaiiiMorph { lex: lex.to_string(), tag: tag.to_string(), begin, length }
}

#[test]
fn analyze() {
    let api = words_session();
    let input = "\u{c548}\u{b155}\u{d558}\u{c138}\u{c694}, \u{c138}\u{c0c1}!".to_string();
    let plan = api.analyze(input).unwrap();
    let text = match plan {
        AnalyzePlan::CallEngine { input, .. } => input,
        _ => panic!("expected an engine call"),
    };
    // the walked engine output for this sentence: byte spans into the input
    // and the engine's normalized morph strings
    let raw = vec![
        RawWord {
            begin: 0,
            length: 16,
            morphs: vec![
                raw_morph("\u{c548}\u{b155}", "NNG", 0, 6),
                raw_morph("\u{d558}", "XSA", 6, 3),
                raw_morph("\u{c2dc}", "EP", 9, 3),
                raw_morph("\u{c5b4}\u{c694}", "EC", 9, 6),
                raw_morph(",", "SP", 15, 1),
            ],
        },
        RawWord {
            begin: 17,
            length: 7,
            morphs: vec![
                raw_morph("\u{c138}\u{c0c1}", "NNG", 17, 6),
                raw_morph("!", "SF", 23, 1),
            ],
        },
    ];
    let results = api.make_words(text, &raw);
    let expected_results: Vec<KhaiiiWord> = vec![
        KhaiiiWord {
            begin: 0,
            length: 6,
            lex: "\u{c548}\u{b155}\u{d558}\u{c138}\u{c694},".to_string(),
            morphs: vec![
                morph("\u{c548}\u{b155}", "NNG", 0, 2),
                morph("\u{d558}", "XSA", 2, 1),
                morph("\u{c2dc}", "EP", 3, 1),
                morph("\u{c5b4}\u{c694}", "EC", 3, 2),
                morph(",", "SP", 5, 1),
            ],
        },
        KhaiiiWord {
            begin: 7,
            length: 3,
            lex: "\u{c138}\u{c0c1}!".to_string(),
            morphs: vec![morph("\u{c138}\u{c0c1}", "NNG", 7, 2), morph("!", "SF", 9, 1)],
        },
    ];
    assert_eq!(results, expected_results);
}

#[test]
fn make_words_empty_output_is_empty() {
    let api = words_session();
    let results = api.make_words("abc".to_string(), &Vec::new());
    assert_eq!(results, Vec::<KhaiiiWord>::new());
}

#[test]
fn word_lex_is_the_codepoint_slice() {
    let api = words_session();
    let input = "ab \u{c548}\u{b155}";
    let align = api.get_align(input);
    // the second word covers the two three-byte codepoints
    let raw = RawWord { begin: 3, length: 6, morphs: Vec::new() };
    let word = KhaiiiWord::from(&raw, input, &align);
    assert_eq!(word.begin, 3);
    assert_eq!(word.length, 2);
    assert_eq!(word.lex, "\u{c548}\u{b155}");
    let slice: String = input.chars().skip(word.begin as usize).take(word.length as usize).collect();
    assert_eq!(slice, word.lex);
}

#[test]
fn morph_spans_follow_the_alignment() {
    let api = words_session();
    let input = "\u{c548}\u{b155}x";
    let align = api.get_align(input);
    let raw = raw_morph("\u{b155}", "NNG", 3, 3);
    let built = KhaiiiMorph::from(&raw, &align);
    assert_eq!(built, morph("\u{b155}", "NNG", 1, 1));
}

#[test]
fn undecodable_morph_strings_become_empty() {
    let api = words_session();
    let input = "abcd";
    let align = api.get_align(input);
    let raw = RawMorph { lex: None, tag: None, begin: 1, length: 2 };
    let built = KhaiiiMorph::from(&raw, &align);
    assert_eq!(built.lex, "");
    assert_eq!(built.tag, "");
    assert_eq!(built.begin, 1);
    assert_eq!(built.length, 2);
}

#[test]
fn new_word_is_the_empty_placeholder() {
    let word = KhaiiiWord::new();
    assert_eq!(word.lex, "");
    assert_eq!(word.begin, -1);
    assert_eq!(word.length, -1);
    assert!(word.morphs.is_empty());
    assert_eq!(word, KhaiiiWord::default());
}

#[test]
fn new_morph_is_the_empty_placeholder() {
    let m = KhaiiiMorph::new();
    assert_eq!(m.lex, "");
    assert_eq!(m.tag, "");
    assert_eq!(m.begin, -1);
    assert_eq!(m.length, -1);
    assert_eq!(m, KhaiiiMorph::default());
}
