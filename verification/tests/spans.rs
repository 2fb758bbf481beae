//! End-to-end tests of the emitter: nested spans, configuration, filtering.

use spannify::config::Config;
use spannify::level::Level;
use spannify::spanner::VecSpanner;

struct Helper {
    spanner: VecSpanner,
}

impl Helper {
    fn helper(&self, current_depth: usize, target_depth: usize) {
        let _span = self
            .spanner
            .enter_span(format!("Span({})", current_depth).as_ref());

        if current_depth >= target_depth {
            return;
        }
        return self.helper(current_depth + 1, target_depth);
    }
}

#[test]
fn core_it_works() {
    let helper = Helper {
        spanner: VecSpanner::new(),
    };

    let expected = r#"┌Span(0)
|  Span(1)
|   ┌Span(2)
|   ┆  Span(3)
|   ┆   ┌Span(4)
|   ┆   |  Span(5)
|   ┆   |  Span(5)
|   ┆   └Span(4)
|   ┆  Span(3)
|   └Span(2)
|  Span(1)
└Span(0)
"#;

    helper.helper(0, 5);
    let vec = helper.spanner.into_writer().into_inner();
    assert_eq!(expected.bytes().collect::<Vec<_>>(), vec);
}

#[test]
fn core_test_config() {
    let helper = Helper {
        spanner: VecSpanner::new().with_config(Config::new().with_skip(3)),
    };

    let expected = r#"┌Span(0)
|  Span(1)
|    Span(2)
|     ┌Span(3)
|     ┊  Span(4)
|     ┊    Span(5)
|     ┊    Span(5)
|     ┊  Span(4)
|     └Span(3)
|    Span(2)
|  Span(1)
└Span(0)
"#;

    helper.helper(0, 5);
    let vec = helper.spanner.into_writer().into_inner();
    assert_eq!(expected.bytes().collect::<Vec<_>>(), vec);
}

#[test]
fn test_level() {
    let spanner =
        VecSpanner::new().with_config(Config::new().with_skip(3).with_level(Level::Info));

    {
        let _span = spanner.enter_with_level(Level::Debug, "foo");
        // Span is dropped here
    }

    assert_eq!(spanner.into_writer().into_inner(), Vec::<u8>::new());
}

#[test]
fn test_skip() {
    let helper = Helper {
        spanner: VecSpanner::new().with_config(Config::new().with_skip(0)),
    };

    let expected = r#" Span(0)
   Span(1)
     Span(2)
       Span(3)
         Span(4)
           Span(5)
           Span(5)
         Span(4)
       Span(3)
     Span(2)
   Span(1)
 Span(0)
"#;

    helper.helper(0, 5);
    let vec = helper.spanner.into_writer().into_inner();
    assert_eq!(expected.bytes().collect::<Vec<_>>(), vec);
}

#[test]
fn it_works_macros() {
    let expected = r#"┌Span(0)
|  Span(1)
|   ┌Span(2)
|   ┆  Span(3)
|   ┆   ┌Span(4)
|   ┆   |  Span(5)
|   ┆   |  Span(5)
|   ┆   └Span(4)
|   ┆  Span(3)
|   └Span(2)
|  Span(1)
└Span(0)
"#;
    let expected_3 = r#"┌Span({current_depth})
|  Span({current_depth})
|   ┌Span({current_depth})
|   ┆  Span({current_depth})
|   ┆   ┌Span({current_depth})
|   ┆   |  Span({current_depth})
|   ┆   |  Span({current_depth})
|   ┆   └Span({current_depth})
|   ┆  Span({current_depth})
|   └Span({current_depth})
|  Span({current_depth})
└Span({current_depth})
"#;

    fn helper_macro(spanner: &VecSpanner, current_depth: usize, target_depth: usize) {
        let _span = spanner.enter_span(&format!("Span({})", current_depth));
        if current_depth >= target_depth {
            return;
        }
        return helper_macro(spanner, current_depth + 1, target_depth);
    }

    fn helper_macro_2(spanner: &VecSpanner, current_depth: usize, target_depth: usize) {
        let _span = spanner.enter_with_level(Level::Info, &format!("Span({})", current_depth));
        if current_depth >= target_depth {
            return;
        }
        return helper_macro_2(spanner, current_depth + 1, target_depth);
    }

    fn helper_macro_3(spanner: &VecSpanner, current_depth: usize, target_depth: usize) {
        let _span = spanner.enter_span("Span({current_depth})");
        if current_depth >= target_depth {
            return;
        }
        return helper_macro_3(spanner, current_depth + 1, target_depth);
    }

    fn helper_macro_4(spanner: &VecSpanner, current_depth: usize, target_depth: usize) {
        let _span = spanner.enter_with_level(Level::Info, &format!("Span({})", current_depth));
        if current_depth >= target_depth {
            return;
        }
        return helper_macro_2(spanner, current_depth + 1, target_depth);
    }

    let spanner = VecSpanner::new();
    helper_macro(&spanner, 0, 5);
    let vec = spanner.into_writer().into_inner();
    assert_eq!(expected.bytes().collect::<Vec<_>>(), vec);

    let spanner = VecSpanner::new();
    helper_macro_2(&spanner, 0, 5);
    let vec = spanner.into_writer().into_inner();
    assert_eq!(expected.bytes().collect::<Vec<_>>(), vec);

    let spanner = VecSpanner::new();
    helper_macro_3(&spanner, 0, 5);
    let vec = spanner.into_writer().into_inner();
    assert_eq!(expected_3.bytes().collect::<Vec<_>>(), vec);

    let spanner = VecSpanner::new();
    helper_macro_4(&spanner, 0, 5);
    let vec = spanner.into_writer().into_inner();
    assert_eq!(expected.bytes().collect::<Vec<_>>(), vec);
}

#[test]
fn depth_returns_to_zero_after_nesting() {
    let helper = Helper {
        spanner: VecSpanner::new(),
    };
    helper.helper(0, 3);
    // Every handle has been released, so the shared depth is back at zero:
    // a fresh span is rendered without any indentation.
    {
        let _span = helper.spanner.enter_span("after");
    }
    let vec = helper.spanner.into_writer().into_inner();
    let text = String::from_utf8(vec).unwrap();
    let lines: Vec<&str> = text.lines().collect();
    assert_eq!(lines.len(), 10);
    assert_eq!(lines[8], "┌after");
    assert_eq!(lines[9], "└after");
}

#[test]
fn enter_and_exit_lines_are_balanced() {
    let helper = Helper {
        spanner: VecSpanner::new(),
    };
    helper.helper(0, 4);
    let vec = helper.spanner.into_writer().into_inner();
    let text = String::from_utf8(vec).unwrap();
    let enters = text.matches('┌').count();
    let exits = text.matches('└').count();
    assert_eq!(enters, exits);
    assert_eq!(text.lines().count(), 10);
}

#[test]
fn filtered_span_is_suppressed_at_entry_and_release() {
    let spanner = VecSpanner::new().with_config(Config::new().with_level(Level::Error));
    {
        let _low = spanner.enter_with_level(Level::Warn, "low");
        let _high = spanner.enter_with_level(Level::Error, "high");
    }
    let vec = spanner.into_writer().into_inner();
    let text = String::from_utf8(vec).unwrap();
    // The suppressed span took no depth, so the emitted one sits at depth 0.
    assert_eq!(text, "┌high\n└high\n");
}

#[test]
fn from_vec_appends_to_existing_bytes() {
    let spanner = VecSpanner::from_vec(b"head\n".to_vec());
    {
        let _span = spanner.enter_span("s");
    }
    let vec = spanner.into_writer().into_inner();
    assert_eq!(String::from_utf8(vec).unwrap(), "head\n┌s\n└s\n");
}

#[test]
fn stdout_spanner_writes_without_panicking() {
    let spanner = spannify::spanner::StdoutSpanner::new();
    {
        let _span = spanner.enter_span("stdout span");
    }
}
