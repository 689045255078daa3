use imgfont::batch::{DirEntryInfo, ImgFont, RunError};
use imgfont::canvas::Canvas;
use imgfont::discovery::{
    is_font_file, is_supported_extension, plan_entry, split_file_name, EntryKind, EntryPlan,
};
use imgfont::font::LoadError;
use imgfont::pipeline::{
    classify_render, process_font, process_word, word_actions, word_job, FileAction, RenderState,
};
use imgfont::render::generate_image_for_word;
use imgfont::words::parse_word_list;

fn entry(kind: EntryKind, name: &str) -> DirEntryInfo {
    DirEntryInfo { kind, file_name: name.to_string() }
}

fn load(name: &str) -> EntryPlan {
    EntryPlan::LoadFile { font_name: name.to_string() }
}

fn scan(name: &str) -> EntryPlan {
    EntryPlan::ScanDirectory { font_name: name.to_string() }
}

fn black(mut canvas: Canvas, _x: u32, _y: u32) -> Canvas {
    canvas.pixels[0] = 0;
    canvas
}

#[test]
fn test_imgfont_function() {
    let fonts_dir = "./fonts";
    let words_file = "./words.txt";
    let images_dir = "./output_images";
    let font_size = 200;
    let border_size = 10;

    let listing = vec![entry(EntryKind::File, "Test.ttf")];
    let run = ImgFont(Some(&listing), Some("Hi\n")).unwrap();
    assert_eq!(run.words, vec!["Hi".to_string()]);
    assert_eq!(run.entries, vec![load("Test")]);

    let job = word_job(&run.words[0]);
    let image = generate_image_for_word(black, &job.word, font_size);
    let steps = word_actions(&job, classify_render(&image), border_size);
    let written: Vec<String> = steps
        .iter()
        .filter_map(|step| match step {
            FileAction::PostProcess { output, .. } => Some(format!("{}/Test/{}", images_dir, output)),
            _ => None,
        })
        .collect();
    assert_eq!(written, vec!["./output_images/Test/Hi.png".to_string()]);
    assert!(written.iter().all(|path| !path.starts_with(fonts_dir) && path != words_file));
}

#[test]
fn scenario_one_word_one_font() {
    let job = word_job("Hi");
    assert_eq!(job.word, "Hi");
    assert_eq!(job.output_name, "Hi.png");
    assert_eq!(job.temp_name, "Hi_temp.png");
    let image = generate_image_for_word(black, "Hi", 200);
    assert_eq!(image.as_ref().map(|c| (c.width, c.height)), Some((800, 400)));
    assert_eq!(classify_render(&image), RenderState::Visible);
    let steps = word_actions(&job, RenderState::Visible, 10);
    assert_eq!(
        steps,
        vec![
            FileAction::WriteRaw { name: "Hi_temp.png".to_string() },
            FileAction::PostProcess {
                raw: "Hi_temp.png".to_string(),
                output: "Hi.png".to_string(),
                border: 10,
            },
            FileAction::RemoveRaw { name: "Hi_temp.png".to_string() },
        ]
    );
    assert_eq!(steps.last(), Some(&FileAction::RemoveRaw { name: job.temp_name.clone() }));
}

#[test]
fn blank_render_is_written_and_removed_only() {
    let job = word_job("Hi");
    let blank = Some(Canvas::white(2, 2));
    assert_eq!(classify_render(&blank), RenderState::Blank);
    assert_eq!(
        word_actions(&job, RenderState::Blank, 10),
        vec![
            FileAction::WriteRaw { name: "Hi_temp.png".to_string() },
            FileAction::RemoveRaw { name: "Hi_temp.png".to_string() },
        ]
    );
}

#[test]
fn missing_render_touches_no_file() {
    let job = word_job("Hi");
    assert_eq!(classify_render(&None), RenderState::Missing);
    assert_eq!(word_actions(&job, RenderState::Missing, 10), Vec::new());
}

#[test]
fn same_word_gives_same_steps_again() {
    let job = word_job("again");
    let first = word_actions(&job, RenderState::Visible, 3);
    let second = word_actions(&job, RenderState::Visible, 3);
    assert_eq!(first, second);
    assert_eq!(word_job("again"), job);
}

#[test]
fn empty_word_still_has_names() {
    let job = word_job("");
    assert_eq!(job.output_name, ".png");
    assert_eq!(job.temp_name, "_temp.png");
}

#[test]
fn discovery_of_flat_file_and_directory() {
    let listing = vec![entry(EntryKind::Directory, "Arial"), entry(EntryKind::File, "Comic.otf")];
    let run = ImgFont(Some(&listing), Some("")).unwrap();
    assert_eq!(run.entries, vec![scan("Arial"), load("Comic")]);
    assert!(run.words.is_empty());
    assert!(is_font_file(EntryKind::File, "Arial.ttf"));
}

#[test]
fn unsupported_extensions_are_ignored() {
    assert_eq!(plan_entry(EntryKind::File, "notes.txt"), EntryPlan::Ignore);
    assert_eq!(plan_entry(EntryKind::File, "README"), EntryPlan::Ignore);
    assert_eq!(plan_entry(EntryKind::File, ".ttf"), EntryPlan::Ignore);
    assert_eq!(plan_entry(EntryKind::File, "Shout.TTF"), EntryPlan::Ignore);
    assert_eq!(plan_entry(EntryKind::Other, "Link.ttf"), EntryPlan::Ignore);
    assert!(!is_font_file(EntryKind::File, "notes.txt"));
    assert!(!is_font_file(EntryKind::Directory, "Nested.ttf"));
    assert!(!is_font_file(EntryKind::Other, "Nested.ttf"));
}

#[test]
fn directory_keeps_its_whole_name() {
    assert_eq!(plan_entry(EntryKind::Directory, "Fonts.ttf"), scan("Fonts.ttf"));
    assert_eq!(plan_entry(EntryKind::Directory, "Open Sans"), scan("Open Sans"));
}

#[test]
fn the_four_extensions() {
    assert!(is_supported_extension("ttf"));
    assert!(is_supported_extension("otf"));
    assert!(is_supported_extension("woff"));
    assert!(is_supported_extension("woff2"));
    assert!(!is_supported_extension("txt"));
    assert!(!is_supported_extension(""));
    assert!(!is_supported_extension("woff3"));
    assert!(!is_supported_extension("TTF"));
    assert_eq!(plan_entry(EntryKind::File, "A.woff"), load("A"));
    assert_eq!(plan_entry(EntryKind::File, "B.woff2"), load("B"));
}

#[test]
fn file_names_split_at_the_last_dot() {
    let some = |s: &str| Some(s.to_string());
    assert_eq!(split_file_name("Arial.ttf"), ("Arial".to_string(), some("ttf")));
    assert_eq!(split_file_name("a.b.otf"), ("a.b".to_string(), some("otf")));
    assert_eq!(split_file_name("noext"), ("noext".to_string(), None));
    assert_eq!(split_file_name(".hidden"), (".hidden".to_string(), None));
    assert_eq!(split_file_name(".hidden.ttf"), (".hidden".to_string(), some("ttf")));
    assert_eq!(split_file_name("dot."), ("dot".to_string(), some("")));
    assert_eq!(split_file_name(""), (String::new(), None));
    assert_eq!(split_file_name("\u{e9}t\u{e9}.woff"), ("\u{e9}t\u{e9}".to_string(), some("woff")));
}

#[test]
fn missing_fonts_root_is_fatal() {
    assert_eq!(ImgFont(None, Some("Hi")), Err(RunError::MissingFontsDirectory));
    assert_eq!(ImgFont(None, None), Err(RunError::MissingFontsDirectory));
    assert_eq!(RunError::MissingFontsDirectory.message(), "Font directory does not exist");
}

#[test]
fn unreadable_word_list_is_fatal() {
    let listing = vec![entry(EntryKind::File, "Test.ttf")];
    assert_eq!(ImgFont(Some(&listing), None), Err(RunError::UnreadableWordList));
    assert_eq!(RunError::UnreadableWordList.message(), "Failed to read words file");
}

#[test]
fn word_list_is_split_into_lines() {
    assert_eq!(parse_word_list("one\ntwo\nthree"), vec!["one", "two", "three"]);
    assert_eq!(parse_word_list("one\ntwo\n"), vec!["one", "two"]);
    assert_eq!(parse_word_list("one\r\ntwo\r\n"), vec!["one", "two"]);
    assert_eq!(parse_word_list(""), Vec::<String>::new());
    assert_eq!(parse_word_list("\n"), vec![""]);
}

#[test]
fn word_list_keeps_blanks_and_empty_lines() {
    assert_eq!(parse_word_list(" a \n\n\tb"), vec![" a ", "", "\tb"]);
    assert_eq!(parse_word_list("a\n\n"), vec!["a", ""]);
}

#[test]
fn carriage_return_goes_only_before_a_line_feed() {
    assert_eq!(parse_word_list("a\r"), vec!["a\r"]);
    assert_eq!(parse_word_list("a\rb\n"), vec!["a\rb"]);
    assert_eq!(parse_word_list("a\r\r\nb"), vec!["a\r", "b"]);
    assert_eq!(parse_word_list("\r\n"), vec![""]);
    assert_eq!(parse_word_list("\r"), vec!["\r"]);
}

#[test]
fn word_list_agrees_with_std_lines() {
    let texts = ["", "a", "a\n", "\n\n", "a\r\nb\rc\n\r", "x\r\n\r\ny", "\u{e9}\n\u{4e2d}\r\n", "\r\r\n\r"];
    for text in texts {
        let expected: Vec<String> = text.lines().map(String::from).collect();
        assert_eq!(parse_word_list(text), expected);
    }
}

#[test]
fn unparsable_font_gives_no_jobs() {
    let words = vec!["Hi".to_string()];
    let plan = process_font("Test", vec![0, 1, 2], &words);
    assert_eq!(plan.err(), Some(LoadError::InvalidData));
}

#[test]
fn numbers_are_written_in_decimal() {
    assert_eq!(imgfont::postprocess::decimal_string(0), "0");
    assert_eq!(imgfont::postprocess::decimal_string(7), "7");
    assert_eq!(imgfont::postprocess::decimal_string(10), "10");
    assert_eq!(imgfont::postprocess::decimal_string(1905), "1905");
    assert_eq!(imgfont::postprocess::decimal_string(u32::MAX), "4294967295");
    for n in [9u32, 99, 100, 101, 12345, 1_000_000_000] {
        assert_eq!(imgfont::postprocess::decimal_string(n), format!("{}", n));
    }
}

#[test]
fn image_tool_arguments_in_order() {
    assert_eq!(
        imgfont::postprocess::post_process_arguments("out/Test/Hi_temp.png", "out/Test/Hi.png", 10),
        vec![
            "out/Test/Hi_temp.png",
            "-trim",
            "+repage",
            "-border",
            "10",
            "-bordercolor",
            "white",
            "out/Test/Hi.png",
        ]
    );
}

#[test]
fn word_is_rendered_and_its_steps_listed() {
    let job = word_job("Hi");
    let (image, steps) = process_word(black, &job, 200, 10);
    let image = image.unwrap();
    assert_eq!((image.width, image.height), (800, 400));
    assert_eq!(image.pixels[0], 0);
    assert_eq!(steps, word_actions(&job, RenderState::Visible, 10));
    assert_eq!(steps.len(), 3);
}

#[test]
fn word_without_a_visible_render_has_no_steps() {
    let keep = |canvas: Canvas, _x: u32, _y: u32| canvas;
    let (image, steps) = process_word(keep, &word_job("Hi"), 200, 10);
    assert!(image.is_none());
    assert!(steps.is_empty());
    let (image, steps) = process_word(black, &word_job(""), 200, 10);
    assert!(image.is_none());
    assert!(steps.is_empty());
}
