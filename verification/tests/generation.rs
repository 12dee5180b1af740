use pdf_canvas::FontSource;
use pdfgen::filler::generate_data;
use pdfgen::layout::{join_words, render_page};
use pdfgen::messenger::Messenger;
use pdfgen::numfmt::{u16_to_string, u64_to_string};
use pdfgen::utils::{generate_random, resolve_output_file};
use pdfgen::{budget_per_page, plan_document, Args, GenError, Rgb};

fn mk_args(color: Rgb, pages: u16, size: Option<u64>, text: &[&str], token: &str) -> Args {
    Args {
        color,
        pages,
        output: None,
        size,
        text: text.iter().map(|w| w.to_string()).collect(),
        no_random_string: false,
        no_pagenum: false,
        no_sizeinfo: false,
        no_stats: false,
        silent: false,
        random_string: token.to_string(),
        debug: false,
    }
}

fn red() -> Rgb {
    Rgb { red: 255, green: 0, blue: 0 }
}

#[test]
fn page_count_matches_request() {
    for pages in [1u16, 2, 3, 7] {
        let args = mk_args(red(), pages, None, &["hello"], "0123456789");
        let plan = plan_document(&args);
        assert_eq!(plan.len(), pages as usize);
    }
}

#[test]
fn page_number_line_on_every_page() {
    let mut args = mk_args(red(), 3, None, &["hello"], "0123456789");
    args.no_random_string = true;
    let plan = plan_document(&args);
    for (i, page) in plan.iter().enumerate() {
        assert_eq!(page.len(), 2);
        assert_eq!(page[1].text, format!("Page {} of 3", i + 1));
    }
}

#[test]
fn no_page_number_line_for_single_page() {
    let mut args = mk_args(red(), 1, None, &["hello"], "0123456789");
    args.no_random_string = true;
    let plan = plan_document(&args);
    assert_eq!(plan[0].len(), 1);
    assert_eq!(plan[0][0].text, "hello");
}

#[test]
fn token_identical_across_pages() {
    let token = generate_random(10);
    let args = mk_args(red(), 3, None, &["hello"], &token);
    let plan = plan_document(&args);
    for page in &plan {
        assert_eq!(page[1].text, token);
    }
    assert_eq!(plan[0][1].text, plan[2][1].text);
}

#[test]
fn vertical_centering_two_lines() {
    let args = mk_args(red(), 1, None, &["hello"], "0123456789");
    let plan = plan_document(&args);
    let page = &plan[0];
    assert_eq!(page.len(), 2);
    // y0 = (842000 + 34000 * 2 - 10000) / 2 - 24000
    assert_eq!(page[0].y_mpt, 426000);
    assert_eq!(page[1].y_mpt, 426000 - 34000);
}

#[test]
fn vertical_centering_four_lines() {
    let args = mk_args(red(), 2, Some(30720), &["hello"], "0123456789");
    let plan = plan_document(&args);
    let texts = &plan[0];
    // four text lines, then filler
    // y0 = (842000 + 34000 * 4 - 10000) / 2 - 24000
    assert_eq!(texts[0].y_mpt, 460000);
    assert_eq!(texts[1].y_mpt, 460000 - 34000);
    assert_eq!(texts[2].y_mpt, 460000 - 68000);
    assert_eq!(texts[3].y_mpt, 460000 - 102000);
}

#[test]
fn horizontal_centering_uses_measured_width() {
    let args = mk_args(red(), 1, None, &["hello", "world"], "0123456789");
    let plan = plan_document(&args);
    let page = &plan[0];
    for cmd in page {
        let raw = pdf_canvas::BuiltinFont::Helvetica.get_width_raw(&cmd.text) as i64;
        assert_eq!(cmd.x_mpt, (595000 - 24 * raw) / 2);
    }
}

#[test]
fn width_metric_matches_encoder() {
    // Helvetica measures "Hello World" at 5167 raw units, so the centered
    // offset is (595000 - 24 * 5167) / 2 millipoints
    assert_eq!(pdf_canvas::BuiltinFont::Helvetica.get_width_raw("Hello World"), 5167);
    let mut args = mk_args(red(), 1, None, &["Hello", "World"], "0123456789");
    args.no_random_string = true;
    let plan = plan_document(&args);
    assert_eq!(plan[0][0].text, "Hello World");
    assert_eq!(plan[0][0].x_mpt, (595000 - 24 * 5167) / 2);
}

#[test]
fn filler_emission_counts() {
    assert_eq!(generate_data(0).len(), 0);
    assert_eq!(generate_data(1).len(), 1);
    assert_eq!(generate_data(1024).len(), 1);
    assert_eq!(generate_data(1025).len(), 2);
    assert_eq!(generate_data(10240).len(), 10);
}

#[test]
fn filler_lines_sit_at_origin() {
    let cmds = generate_data(2048);
    assert_eq!(cmds.len(), 2);
    for cmd in &cmds {
        assert_eq!(cmd.x_mpt, 0);
        assert_eq!(cmd.y_mpt, 0);
        assert_eq!(cmd.text.len(), 1024 - 9);
        assert!(cmd.text.chars().all(|c| c == '_'));
    }
}

#[test]
fn budget_partitioning() {
    assert_eq!(budget_per_page(30720, 3), 10240);
    assert_eq!(budget_per_page(10, 3), 3);
    // the remainder is discarded, never redistributed
    assert!(10 - 3 * budget_per_page(10, 3) <= 2);
    assert_eq!(budget_per_page(0, 5), 0);
}

#[test]
fn scenario_one_red_page() {
    let token = generate_random(10);
    assert_eq!(token.len(), 10);
    assert!(token.chars().all(|c| c.is_ascii_digit()));
    let args = mk_args(red(), 1, None, &["hello"], &token);
    let plan = plan_document(&args);
    assert_eq!(plan.len(), 1);
    let page = &plan[0];
    assert_eq!(page.len(), 2);
    assert_eq!(page[0].text, "hello");
    assert_eq!(page[1].text, token);
    let name = resolve_output_file(&args).unwrap();
    assert_eq!(name, format!("sample-red-{}.pdf", token));
}

#[test]
fn scenario_suppressed_page_numbers() {
    let mut args = mk_args(red(), 3, None, &["hello"], "0123456789");
    args.no_pagenum = true;
    let plan = plan_document(&args);
    for page in &plan {
        assert!(!page.iter().any(|cmd| cmd.text.starts_with("Page ")));
    }
}

#[test]
fn scenario_thirty_kilobytes_over_three_pages() {
    let args = mk_args(red(), 3, Some(30720), &["hello"], "0123456789");
    assert_eq!(budget_per_page(30720, 3), 10240);
    let plan = plan_document(&args);
    for page in &plan {
        // three text lines (text, token, size info) plus "Page i of 3",
        // then exactly 10240 / 1024 = 10 filler instructions
        assert_eq!(page.len(), 4 + 10);
        for cmd in &page[4..] {
            assert_eq!((cmd.x_mpt, cmd.y_mpt), (0, 0));
        }
    }
}

#[test]
fn scenario_unnamed_color_is_refused() {
    let args = mk_args(Rgb { red: 10, green: 20, blue: 30 }, 1, None, &["hello"], "0123456789");
    assert_eq!(resolve_output_file(&args), Err(GenError::UnnamedColor));
}

#[test]
fn explicit_output_name_wins() {
    let mut args = mk_args(Rgb { red: 10, green: 20, blue: 30 }, 1, None, &["x"], "0123456789");
    args.output = Some("out.pdf".to_string());
    assert_eq!(resolve_output_file(&args), Ok("out.pdf".to_string()));
}

#[test]
fn size_info_line_matches_bytesize_rendering() {
    let args = mk_args(red(), 1, Some(30720), &["hello"], "0123456789");
    let plan = plan_document(&args);
    let expected = format!("File size: {}", bytesize::ByteSize::b(30720));
    assert_eq!(plan[0][2].text, expected);
}

#[test]
fn size_info_line_can_be_suppressed() {
    let mut args = mk_args(red(), 1, Some(30720), &["hello"], "0123456789");
    args.no_sizeinfo = true;
    let plan = plan_document(&args);
    // text and token lines only, then the filler
    assert!(plan[0][..2].iter().all(|cmd| !cmd.text.starts_with("File size: ")));
    assert_eq!(plan[0].len(), 2 + 30);
}

#[test]
fn joined_text_is_first_line() {
    let args = mk_args(red(), 1, None, &["lorem", "ipsum", "dolor"], "0123456789");
    let plan = plan_document(&args);
    assert_eq!(plan[0][0].text, "lorem ipsum dolor");
}

#[test]
fn join_words_cases() {
    assert_eq!(join_words(&Vec::<String>::new()), "");
    assert_eq!(join_words(&vec!["a".to_string()]), "a");
    assert_eq!(join_words(&vec!["a".to_string(), "b".to_string()]), "a b");
    assert_eq!(join_words(&vec!["".to_string(), "".to_string()]), " ");
}

#[test]
fn empty_text_still_renders_a_line() {
    let mut args = mk_args(red(), 1, None, &[], "0123456789");
    args.no_random_string = true;
    let plan = plan_document(&args);
    assert_eq!(plan[0].len(), 1);
    assert_eq!(plan[0][0].text, "");
    // an empty line measures zero wide and centers at half the page width
    assert_eq!(plan[0][0].x_mpt, 297500);
}

#[test]
fn decimal_rendering() {
    assert_eq!(u64_to_string(0), "0");
    assert_eq!(u64_to_string(7), "7");
    assert_eq!(u64_to_string(30), "30");
    assert_eq!(u64_to_string(18446744073709551615), "18446744073709551615");
    assert_eq!(u16_to_string(65535), "65535");
}

#[test]
fn random_token_shape() {
    for len in [0u8, 1, 10, 255] {
        let token = generate_random(len);
        assert_eq!(token.len(), len as usize);
        assert!(token.chars().all(|c| c.is_ascii_digit()));
    }
}

#[test]
fn messenger_debug_policy() {
    let mut args = mk_args(red(), 1, None, &["x"], "0123456789");
    args.debug = true;
    let m = Messenger::new(args.clone());
    assert_eq!(m.debug("d".to_string()), Some("d".to_string()));
    args.silent = true;
    let m = Messenger::new(args.clone());
    assert_eq!(m.debug("d".to_string()), None);
    args.silent = false;
    args.debug = false;
    let m = Messenger::new(args);
    assert_eq!(m.debug("d".to_string()), None);
}

#[test]
fn messenger_stats_policy() {
    let args = mk_args(red(), 1, None, &["x"], "0123456789");
    let m = Messenger::new(args.clone());
    assert_eq!(m.stats("s".to_string()), Some("s".to_string()));
    let mut quiet = args.clone();
    quiet.no_stats = true;
    let m = Messenger::new(quiet);
    assert_eq!(m.stats("s".to_string()), None);
    let mut silent = args;
    silent.silent = true;
    let m = Messenger::new(silent);
    assert_eq!(m.stats("s".to_string()), None);
}

#[test]
fn messenger_silent_policy() {
    let mut args = mk_args(red(), 1, None, &["x"], "0123456789");
    let m = Messenger::new(args.clone());
    assert_eq!(m.silent("f".to_string()), None);
    args.silent = true;
    let m = Messenger::new(args);
    assert_eq!(m.silent("f.pdf".to_string()), Some("f.pdf".to_string()));
}

#[test]
fn render_page_standalone_matches_plan() {
    let args = mk_args(red(), 2, None, &["hello"], "0123456789");
    let plan = plan_document(&args);
    let page = render_page(&args, 1);
    assert_eq!(page.len(), plan[1].len());
    for (a, b) in page.iter().zip(plan[1].iter()) {
        assert_eq!((a.x_mpt, a.y_mpt, &a.text), (b.x_mpt, b.y_mpt, &b.text));
    }
}

#[test]
fn token_only_difference_between_runs() {
    let a = mk_args(red(), 2, Some(4096), &["same", "text"], "0000000000");
    let b = mk_args(red(), 2, Some(4096), &["same", "text"], "9999999999");
    let plan_a = plan_document(&a);
    let plan_b = plan_document(&b);
    assert_eq!(plan_a.len(), plan_b.len());
    for (pa, pb) in plan_a.iter().zip(plan_b.iter()) {
        assert_eq!(pa.len(), pb.len());
        for (i, (ca, cb)) in pa.iter().zip(pb.iter()).enumerate() {
            assert_eq!(ca.y_mpt, cb.y_mpt);
            if i != 1 {
                assert_eq!(ca.text, cb.text);
                assert_eq!(ca.x_mpt, cb.x_mpt);
            }
        }
    }
}
