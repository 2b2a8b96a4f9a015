use multiselect::{
    DefaultFilter, DefaultFormatter, Filter, Formatter, InquireError, Input, Key, KeyModifiers,
    MinCountValidator, MultiSelect, MultiSelectBackend, MultiSelectPrompt, OptionAnswer, Validator,
};
use multiselect::pagination::paginate;

fn labels(v: &[&str]) -> Vec<String> {
    v.iter().map(|s| s.to_string()).collect()
}

struct ScriptedBackend {
    keys: Vec<Key>,
    pos: usize,
    errors: Vec<String>,
    options_rendered: Vec<(String, bool, bool)>,
    finished: Option<(String, String)>,
    frames: usize,
}

impl ScriptedBackend {
    fn new(keys: Vec<Key>) -> Self {
        ScriptedBackend {
            keys,
            pos: 0,
            errors: Vec::new(),
            options_rendered: Vec::new(),
            finished: None,
            frames: 0,
        }
    }
}

impl MultiSelectBackend for ScriptedBackend {
    fn frame_setup(&mut self) -> Result<(), InquireError> {
        self.frames += 1;
        Ok(())
    }

    fn render_error_message(&mut self, error: &str) -> Result<(), InquireError> {
        self.errors.push(error.to_string());
        Ok(())
    }

    fn render_multiselect_prompt(&mut self, _prompt: &str, _cur_input: &str) -> Result<(), InquireError> {
        Ok(())
    }

    fn render_option(&mut self, content: &str, focused: bool, checked: bool) -> Result<(), InquireError> {
        self.options_rendered.push((content.to_string(), focused, checked));
        Ok(())
    }

    fn render_help_message(&mut self, _help: &str) -> Result<(), InquireError> {
        Ok(())
    }

    fn frame_finish(&mut self) -> Result<(), InquireError> {
        Ok(())
    }

    fn read_key(&mut self) -> Result<Key, InquireError> {
        if self.pos < self.keys.len() {
            let k = self.keys[self.pos];
            self.pos += 1;
            Ok(k)
        } else {
            Err(InquireError::IO("script exhausted".to_string()))
        }
    }

    fn finish_prompt(&mut self, prompt: &str, answer: &str) -> Result<(), InquireError> {
        self.finished = Some((prompt.to_string(), answer.to_string()));
        Ok(())
    }
}

fn session(ms: MultiSelect<DefaultFilter, DefaultFormatter, multiselect::NoValidator>) -> MultiSelectPrompt<DefaultFilter, DefaultFormatter, multiselect::NoValidator> {
    MultiSelectPrompt::new(ms).unwrap()
}

#[test]
fn construction_without_defaults_yields_empty_checked_and_full_range() {
    let p = session(MultiSelect::new("pick", labels(&["a", "b", "c"])));
    assert!(p.checked.iter().all(|b| !b));
    assert_eq!(p.filtered_options, vec![0, 1, 2]);
    assert_eq!(p.cursor_index, 0);
    assert!(p.error.is_none());
}

#[test]
fn construction_with_out_of_range_default_fails() {
    let ms = MultiSelect::new("pick", labels(&["a", "b", "c"])).with_default(vec![3]);
    let r = MultiSelectPrompt::new(ms);
    assert!(matches!(r, Err(InquireError::InvalidConfiguration(_))));
}

#[test]
fn construction_with_in_range_defaults_checks_exactly_those() {
    let ms = MultiSelect::new("pick", labels(&["a", "b", "c"])).with_default(vec![0, 2]);
    let p = MultiSelectPrompt::new(ms).unwrap();
    assert_eq!(p.checked, vec![true, false, true]);
}

#[test]
fn construction_with_empty_options_fails() {
    let ms = MultiSelect::new("pick", labels(&[]));
    assert!(matches!(MultiSelectPrompt::new(ms), Err(InquireError::InvalidConfiguration(_))));
}

#[test]
fn construction_with_out_of_range_starting_cursor_fails() {
    let ms = MultiSelect::new("pick", labels(&["a", "b"])).with_starting_cursor(2);
    assert!(matches!(MultiSelectPrompt::new(ms), Err(InquireError::InvalidConfiguration(_))));
}

#[test]
fn filtering_yields_ascending_subsequence_and_empty_query_full_range() {
    let mut p = session(MultiSelect::new("pick", labels(&["apple", "banana", "blueberry"])));
    p.on_change(Key::Char('B', KeyModifiers::Plain));
    assert_eq!(p.filtered_options, vec![1, 2]);
    p.on_change(Key::Backspace);
    assert_eq!(p.filtered_options, vec![0, 1, 2]);
}

#[test]
fn filtering_that_empties_the_list_resets_cursor() {
    let mut p = session(MultiSelect::new("pick", labels(&["aa", "ab", "b"])));
    p.on_change(Key::Down(KeyModifiers::Plain));
    assert_eq!(p.cursor_index, 1);
    p.on_change(Key::Char('z', KeyModifiers::Plain));
    assert_eq!(p.filtered_options, Vec::<usize>::new());
    assert_eq!(p.cursor_index, 0);
}

#[test]
fn filtering_clamps_cursor_to_last_position() {
    let mut p = session(MultiSelect::new("pick", labels(&["aa", "ab", "b"])));
    p.on_change(Key::Down(KeyModifiers::Plain));
    p.on_change(Key::Down(KeyModifiers::Plain));
    assert_eq!(p.cursor_index, 2);
    p.on_change(Key::Char('a', KeyModifiers::Plain));
    assert_eq!(p.filtered_options, vec![0, 1]);
    assert_eq!(p.cursor_index, 1);
}

#[test]
fn double_toggle_restores_checked_membership() {
    let mut p = session(MultiSelect::new("pick", labels(&["a", "b", "c"])).with_default(vec![1]));
    let before = p.checked.clone();
    p.on_change(Key::Char(' ', KeyModifiers::Plain));
    assert_eq!(p.checked, vec![true, true, false]);
    p.on_change(Key::Char(' ', KeyModifiers::Plain));
    assert_eq!(p.checked, before);
}

#[test]
fn select_all_then_none_yields_empty_checked_set() {
    let mut p = session(MultiSelect::new("pick", labels(&["a", "b", "c"])).with_default(vec![0, 1]));
    p.on_change(Key::Right(KeyModifiers::Plain));
    assert_eq!(p.checked, vec![true, true, true]);
    p.on_change(Key::Left(KeyModifiers::Plain));
    assert_eq!(p.checked, vec![false, false, false]);
}

#[test]
fn select_all_is_scoped_to_the_filtered_list() {
    let mut p = session(MultiSelect::new("pick", labels(&["apple", "banana", "blueberry"])).with_default(vec![0]));
    p.on_change(Key::Char('b', KeyModifiers::Plain));
    assert_eq!(p.filtered_options, vec![1, 2]);
    p.on_change(Key::Right(KeyModifiers::Plain));
    // index 0 was checked before but the set is cleared first
    assert_eq!(p.checked, vec![false, true, true]);
}

#[test]
fn cursor_wraps_up_from_top_and_down_from_bottom() {
    let mut p = session(MultiSelect::new("pick", labels(&["a", "b", "c"])));
    assert_eq!(p.cursor_index, 0);
    p.move_cursor_up();
    assert_eq!(p.cursor_index, 2);
    p.move_cursor_down();
    assert_eq!(p.cursor_index, 0);
    p.on_change(Key::Down(KeyModifiers::Plain));
    p.on_change(Key::Down(KeyModifiers::Plain));
    assert_eq!(p.cursor_index, 2);
    p.on_change(Key::Down(KeyModifiers::Plain));
    assert_eq!(p.cursor_index, 0);
}

#[test]
fn cursor_moves_are_no_ops_on_single_element_list() {
    let mut p = session(MultiSelect::new("pick", labels(&["only"])));
    p.move_cursor_up();
    assert_eq!(p.cursor_index, 0);
    p.move_cursor_down();
    assert_eq!(p.cursor_index, 0);
}

#[test]
fn vim_keys_navigate_only_when_enabled() {
    let mut p = session(MultiSelect::new("pick", labels(&["a", "b", "c"])).with_vim_mode(true));
    p.on_change(Key::Char('j', KeyModifiers::Plain));
    assert_eq!(p.cursor_index, 1);
    p.on_change(Key::Char('k', KeyModifiers::Plain));
    assert_eq!(p.cursor_index, 0);

    let mut q = session(MultiSelect::new("pick", labels(&["a", "b", "c"])));
    q.on_change(Key::Char('j', KeyModifiers::Plain));
    // without vim mode the character goes to the filter buffer
    assert_eq!(q.cursor_index, 0);
    assert_eq!(q.input.content(), "j");
    assert_eq!(q.filtered_options, Vec::<usize>::new());
}

#[test]
fn modified_navigation_chars_fall_through_to_editing() {
    let mut p = session(MultiSelect::new("pick", labels(&["a", "b", "c"])).with_vim_mode(true));
    p.on_change(Key::Char('j', KeyModifiers::Shift));
    assert_eq!(p.cursor_index, 0);
    assert_eq!(p.input.content(), "j");
}

#[test]
fn toggling_without_keep_filter_clears_the_query() {
    let mut p = session(MultiSelect::new("pick", labels(&["apple", "banana", "blueberry"])).with_keep_filter(false));
    p.on_change(Key::Char('b', KeyModifiers::Plain));
    assert_eq!(p.filtered_options, vec![1, 2]);
    p.on_change(Key::Char(' ', KeyModifiers::Plain));
    assert_eq!(p.checked, vec![false, true, false]);
    assert_eq!(p.input.content(), "");
    assert_eq!(p.filtered_options, vec![0, 1, 2]);
}

#[test]
fn toggle_on_empty_filtered_list_is_a_no_op() {
    let mut p = session(MultiSelect::new("pick", labels(&["a", "b"])));
    p.on_change(Key::Char('z', KeyModifiers::Plain));
    assert_eq!(p.filtered_options, Vec::<usize>::new());
    p.on_change(Key::Char(' ', KeyModifiers::Plain));
    assert!(p.checked.iter().all(|b| !b));
}

#[test]
fn submission_lists_checked_options_in_original_order() {
    let ms = MultiSelect::new("pick", labels(&["l0", "l1", "l2", "l3", "l4", "l5"]))
        .with_default(vec![3, 0, 5]);
    let p = MultiSelectPrompt::new(ms).unwrap();
    let ans = p.get_final_answer().unwrap();
    let got: Vec<(usize, String)> = ans.iter().map(|a| (a.index, a.value.clone())).collect();
    assert_eq!(
        got,
        vec![(0, "l0".to_string()), (3, "l3".to_string()), (5, "l5".to_string())]
    );
}

#[test]
fn rejected_submission_sets_error_and_keeps_checked_set() {
    let ms = MultiSelect::new("pick", labels(&["a", "b"]))
        .with_validator(MinCountValidator::new(1, "select at least one"));
    let mut p = MultiSelectPrompt::new(ms).unwrap();
    let r = p.submit();
    assert!(r.is_none());
    assert_eq!(p.error.as_deref(), Some("select at least one"));
    assert!(p.checked.iter().all(|b| !b));
}

#[test]
fn rejecting_validator_loops_until_a_selection_passes() {
    let ms = MultiSelect::new("pick", labels(&["a", "b"]))
        .with_validator(MinCountValidator::new(1, "select at least one"));
    let mut backend = ScriptedBackend::new(vec![
        Key::Submit,
        Key::Char(' ', KeyModifiers::Plain),
        Key::Submit,
    ]);
    let r = ms.prompt(&mut backend).unwrap();
    assert_eq!(r.len(), 1);
    assert_eq!(r[0].index, 0);
    assert_eq!(r[0].value, "a");
    assert!(backend.errors.iter().any(|e| e == "select at least one"));
    assert_eq!(backend.finished, Some(("pick".to_string(), "a".to_string())));
}

#[test]
fn cancellation_discards_everything_and_never_finishes() {
    let ms = MultiSelect::new("pick", labels(&["a", "b"]))
        .with_validator(MinCountValidator::new(100, "unreachable"));
    let mut backend = ScriptedBackend::new(vec![
        Key::Char('a', KeyModifiers::Plain),
        Key::Char(' ', KeyModifiers::Plain),
        Key::Cancel,
    ]);
    let r = ms.prompt(&mut backend);
    assert!(matches!(r, Err(InquireError::OperationCanceled)));
    assert!(backend.finished.is_none());
    assert!(backend.errors.is_empty());
}

#[test]
fn prompt_happy_path_formats_and_finishes() {
    let ms = MultiSelect::new("pick", labels(&["a", "b"]));
    let mut backend = ScriptedBackend::new(vec![
        Key::Down(KeyModifiers::Plain),
        Key::Char(' ', KeyModifiers::Plain),
        Key::Submit,
    ]);
    let r = ms.prompt(&mut backend).unwrap();
    assert_eq!(r.len(), 1);
    assert_eq!(r[0].index, 1);
    assert_eq!(r[0].value, "b");
    assert_eq!(backend.finished, Some(("pick".to_string(), "b".to_string())));
    assert!(backend.frames >= 1);
}

#[test]
fn prompt_with_empty_options_fails_before_rendering() {
    let ms = MultiSelect::new("pick", labels(&[]));
    let mut backend = ScriptedBackend::new(vec![]);
    let r = ms.prompt(&mut backend);
    assert!(matches!(r, Err(InquireError::InvalidConfiguration(_))));
    assert_eq!(backend.frames, 0);
}

#[test]
fn rendered_page_marks_cursor_and_checked() {
    let ms = MultiSelect::new("pick", labels(&["a", "b", "c"])).with_default(vec![2]);
    let mut backend = ScriptedBackend::new(vec![Key::Down(KeyModifiers::Plain), Key::Cancel]);
    let _ = ms.prompt(&mut backend);
    // two frames of three options each; in the second the cursor is on "b"
    assert_eq!(backend.options_rendered.len(), 6);
    assert_eq!(backend.options_rendered[3], ("a".to_string(), false, false));
    assert_eq!(backend.options_rendered[4], ("b".to_string(), true, false));
    assert_eq!(backend.options_rendered[5], ("c".to_string(), false, true));
}

#[test]
fn default_filter_matches_case_insensitive_substrings() {
    let f = DefaultFilter;
    assert!(f.matches("AB", "xaBy", 0));
    assert!(f.matches("", "anything", 1));
    assert!(!f.matches("z", "xaBy", 2));
    assert!(f.matches("berry", "BlueBerry", 0));
}

#[test]
fn default_formatter_joins_labels_with_commas() {
    let m = DefaultFormatter;
    assert_eq!(m.format(&vec![]), "");
    assert_eq!(m.format(&vec![OptionAnswer::new(0, "a")]), "a");
    assert_eq!(
        m.format(&vec![OptionAnswer::new(0, "a"), OptionAnswer::new(2, "c")]),
        "a, c"
    );
}

#[test]
fn min_count_validator_verdicts() {
    let v = MinCountValidator::new(2, "need two");
    assert_eq!(v.validate(&vec![]), Err("need two".to_string()));
    assert_eq!(
        v.validate(&vec![OptionAnswer::new(0, "a"), OptionAnswer::new(1, "b")]),
        Ok(())
    );
}

#[test]
fn input_buffer_edits_and_reports_dirtiness() {
    let mut input = Input::new();
    assert!(input.handle_key(Key::Char('a', KeyModifiers::Plain)));
    assert!(input.handle_key(Key::Char('c', KeyModifiers::Plain)));
    assert!(!input.handle_key(Key::Left(KeyModifiers::Plain)));
    assert!(input.handle_key(Key::Char('b', KeyModifiers::Plain)));
    assert_eq!(input.content(), "abc");
    assert!(input.handle_key(Key::Backspace));
    assert_eq!(input.content(), "ac");
    assert!(input.handle_key(Key::Delete));
    assert_eq!(input.content(), "a");
    assert!(!input.handle_key(Key::Delete));
    assert!(!input.handle_key(Key::Char('x', KeyModifiers::Control)));
    assert_eq!(input.content(), "a");
}

#[test]
fn pagination_windows_contain_the_cursor() {
    let first = paginate(2, 5, 0);
    assert_eq!((first.start, first.end, first.cursor_offset), (0, 2, 0));
    assert!(first.first && !first.last);
    let middle = paginate(2, 5, 2);
    assert_eq!((middle.start, middle.end, middle.cursor_offset), (1, 3, 1));
    assert!(!middle.first && !middle.last);
    let last = paginate(2, 5, 4);
    assert_eq!((last.start, last.end, last.cursor_offset), (3, 5, 1));
    assert!(!last.first && last.last);
    let small = paginate(7, 3, 1);
    assert_eq!((small.start, small.end, small.cursor_offset), (0, 3, 1));
    assert!(small.first && small.last);
    let empty = paginate(7, 0, 0);
    assert_eq!((empty.start, empty.end, empty.cursor_offset), (0, 0, 0));
}

#[test]
fn builders_set_their_fields() {
    let ms = MultiSelect::new("m", labels(&["a"]))
        .with_page_size(3)
        .with_vim_mode(true)
        .with_keep_filter(false)
        .with_starting_cursor(0)
        .with_help_message("custom help")
        .with_default(vec![0]);
    assert_eq!(ms.page_size, 3);
    assert!(ms.vim_mode);
    assert!(!ms.keep_filter);
    assert_eq!(ms.starting_cursor, 0);
    assert_eq!(ms.help_message.as_deref(), Some("custom help"));
    assert_eq!(ms.default, Some(vec![0]));
    let ms = ms.without_help_message();
    assert!(ms.help_message.is_none());
}

#[test]
fn frame_plan_shows_the_window_around_the_cursor() {
    let ms = MultiSelect::new("pick", labels(&["a", "b", "c", "d", "e"]))
        .with_page_size(2)
        .with_starting_cursor(3)
        .with_default(vec![3]);
    let p = MultiSelectPrompt::new(ms).unwrap();
    let plan = p.frame_plan();
    assert_eq!(plan.message, "pick");
    assert_eq!(plan.query, "");
    assert!(plan.error.is_none());
    assert!(plan.help.is_some());
    assert_eq!(
        plan.lines,
        vec![("c".to_string(), false, false), ("d".to_string(), true, true)]
    );
}

#[test]
fn frame_plan_follows_the_filtered_list_and_the_error() {
    let ms = MultiSelect::new("pick", labels(&["apple", "banana", "blueberry"]))
        .without_help_message()
        .with_validator(MinCountValidator::new(1, "pick something"));
    let mut p = MultiSelectPrompt::new(ms).unwrap();
    p.on_change(Key::Char('b', KeyModifiers::Plain));
    assert!(p.submit().is_none());
    let plan = p.frame_plan();
    assert_eq!(plan.error.as_deref(), Some("pick something"));
    assert_eq!(plan.query, "b");
    assert!(plan.help.is_none());
    assert_eq!(
        plan.lines,
        vec![("banana".to_string(), true, false), ("blueberry".to_string(), false, false)]
    );
}

#[test]
fn exhausted_key_source_surfaces_as_io_error() {
    let ms = MultiSelect::new("pick", labels(&["a"]));
    let mut backend = ScriptedBackend::new(vec![Key::Down(KeyModifiers::Plain)]);
    let r = ms.prompt(&mut backend);
    assert!(matches!(r, Err(InquireError::IO(_))));
    assert!(backend.finished.is_none());
}

#[test]
fn strategy_builders_replace_the_strategies() {
    let ms = MultiSelect::new("pick", labels(&["a", "b"]))
        .with_filter(DefaultFilter)
        .with_formatter(DefaultFormatter);
    let mut backend = ScriptedBackend::new(vec![Key::Char(' ', KeyModifiers::Plain), Key::Submit]);
    let r = ms.prompt_with_backend(&mut backend).unwrap();
    assert_eq!(r.len(), 1);
    assert_eq!(backend.finished, Some(("pick".to_string(), "a".to_string())));
}

#[test]
fn error_message_carries_the_text() {
    let e = InquireError::InvalidConfiguration("bad setup".to_string());
    assert_eq!(e.message(), "bad setup");
    let io = InquireError::IO("broken pipe".to_string());
    assert_eq!(io.message(), "broken pipe");
}
