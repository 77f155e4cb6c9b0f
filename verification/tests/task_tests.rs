use cog_task::action::nil::Nil;
use cog_task::action::Action;
use cog_task::assets::Icon;
use cog_task::config::Config;
use cog_task::error::Error;
use cog_task::task::{Block, Task};
use cog_task::util::{bool_to_string, u64_to_string};

fn block(label: &str) -> Block {
    Block::new(String::from(label), Action::Nil(Nil::new()))
}

fn task(labels: &[&str], description: &str) -> Task {
    let blocks = labels.iter().map(|l| block(l)).collect();
    Task::new(
        String::from("study"),
        String::from("1.2"),
        blocks,
        Config::default(),
        String::from(description),
    )
}

#[test]
fn title_is_name_with_version() {
    assert_eq!(task(&["a"], "d").title(), String::from("study (1.2)"));
}

#[test]
fn getters_return_the_parts() {
    let t = task(&["a", "b"], "desc");
    assert_eq!(t.name(), &String::from("study"));
    assert_eq!(t.version(), &String::from("1.2"));
    assert_eq!(t.description(), "desc");
    assert_eq!(t.block(1).label(), &String::from("b"));
    assert_eq!(
        t.block_labels(),
        vec![String::from("a"), String::from("b")]
    );
}

#[test]
fn init_rejects_duplicate_block_labels() {
    match task(&["a", "b", "a"], "d").init(None) {
        Err(Error::InvalidNameError(_)) => {}
        other => panic!("unexpected: {:?}", other),
    }
}

#[test]
fn init_validates_every_block_tree() {
    let stream = cog_task::action::stream::Stream {
        src: String::from("a.mp4"),
        width: None,
        volume: Some(1500),
        looping: false,
    };
    let blocks = vec![block("a"), Block::new(String::from("b"), Action::Stream(stream))];
    let t = Task::new(
        String::from("study"),
        String::from("1.2"),
        blocks,
        Config::default(),
        String::from("d"),
    );
    match t.init(None) {
        Err(Error::TaskDefinitionError(_)) => {}
        other => panic!("unexpected: {:?}", other),
    }
}

#[test]
fn init_fills_an_empty_description_from_the_fallback() {
    let t = task(&["a", "b"], "").init(Some(String::from("from file"))).unwrap();
    assert_eq!(t.description(), "from file");
    match task(&["a"], "").init(None) {
        Err(Error::TaskDefinitionError(_)) => {}
        other => panic!("unexpected: {:?}", other),
    }
    let kept = task(&["a"], "given").init(Some(String::from("ignored"))).unwrap();
    assert_eq!(kept.description(), "given");
}

#[test]
fn block_config_inherits_the_task_config() {
    let c = Config::new(500, Default::default(), Default::default());
    assert_eq!(block("a").config(&c), c);
    assert_eq!(c.volume(None), 500);
    assert_eq!(c.volume(Some(250)), 250);
}

#[test]
fn decimal_rendering_is_exact() {
    assert_eq!(u64_to_string(0), String::from("0"));
    assert_eq!(u64_to_string(8), String::from("8"));
    assert_eq!(u64_to_string(10), String::from("10"));
    assert_eq!(u64_to_string(90187), String::from("90187"));
    assert_eq!(u64_to_string(u64::MAX), String::from("18446744073709551615"));
    assert_eq!(bool_to_string(true), String::from("true"));
    assert_eq!(bool_to_string(false), String::from("false"));
}

#[test]
fn icon_glyphs_sit_in_the_icon_font_range() {
    assert_eq!(Icon::Help.glyph(), '\u{f059}');
    assert_eq!(Icon::SystemInfo.glyph(), '\u{f05a}');
    assert_eq!(Icon::Clipboard.glyph(), '\u{f328}');
    assert_eq!(Icon::Close.glyph(), '\u{f00d}');
    assert_eq!(Icon::Folder.glyph(), '\u{f07b}');
    assert_eq!(Icon::FolderTree.glyph(), '\u{f802}');
    assert_eq!(Icon::MagnifyingGlass.glyph(), '\u{f002}');
}

#[test]
fn error_messages_carry_their_context() {
    let e = Error::InternalError(String::from("broken invariant"));
    assert_eq!(e.message(), String::from("broken invariant"));
    assert_eq!(e.clone(), e);
}
