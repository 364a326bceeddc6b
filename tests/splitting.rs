use sql_splitter::kind::ObjectType;
use sql_splitter::marker::DatabaseObject;
use sql_splitter::paths::trim_dir;
use sql_splitter::splitter::{Action, SplitError, Splitter};

/// Runs a whole input through a splitter: the outputs as (path, content),
/// the dropped text, and how the pass ended.
fn split(input: &str, root: &str, only_names: bool) -> (Vec<(String, String)>, String, Result<(), SplitError>) {
    let mut s = Splitter::new(root, only_names);
    let mut outs: Vec<(String, String)> = Vec::new();
    let mut dropped = String::new();
    for line in input.split_inclusive('\n') {
        match s.step(line.to_string()) {
            Action::Context => {}
            Action::Drop => dropped.push_str(line),
            Action::Write(l) => outs.last_mut().unwrap().1.push_str(&l),
            Action::Open { path, preamble, line } => {
                outs.push((path, format!("{}{}", preamble, line)));
            }
        }
    }
    let end = s.finish();
    (outs, dropped, end)
}

#[test]
fn end_to_end_two_objects() {
    let input = "USE [MyDb]\nGO\n/****** Object:  StoredProcedure [dbo].[GetUsers]    ******/\nCREATE PROCEDURE dbo.GetUsers AS SELECT 1\nGO\n/****** Object:  View [dbo].[V1]    ******/\nCREATE VIEW dbo.V1 AS SELECT 1\n";
    let (outs, dropped, end) = split(input, ".", false);
    assert_eq!(end, Ok(()));
    assert_eq!(dropped, "");
    assert_eq!(outs.len(), 2);
    assert_eq!(outs[0].0, "./StoredProcedure/dbo.GetUsers.sql");
    assert_eq!(
        outs[0].1,
        "USE [MyDb]\nGO\n/****** Object:  StoredProcedure [dbo].[GetUsers]    ******/\nCREATE PROCEDURE dbo.GetUsers AS SELECT 1\nGO\n"
    );
    assert_eq!(outs[1].0, "./View/dbo.V1.sql");
    assert_eq!(
        outs[1].1,
        "USE [MyDb]\nGO\n/****** Object:  View [dbo].[V1]    ******/\nCREATE VIEW dbo.V1 AS SELECT 1\n"
    );
}

#[test]
fn marker_round_trip() {
    let o = DatabaseObject::parse("/****** Object:  Table [sales].[Orders]    Script Date: 1/2/2020 ******/\n").unwrap();
    assert_eq!(o.object_type, ObjectType::Table);
    assert_eq!(o.schema, "sales");
    assert_eq!(o.name, "Orders");
    let o = DatabaseObject::parse("/****** Object: UserDefinedFunction [dbo].[fn_x]").unwrap();
    assert_eq!(o.object_type, ObjectType::UserDefinedFunction);
    assert_eq!(o.schema, "dbo");
    assert_eq!(o.name, "fn_x");
}

#[test]
fn marker_unknown_kind_is_no_marker() {
    assert!(DatabaseObject::parse("/****** Object:  Widget [dbo].[X]    ******/\n").is_none());
    assert!(DatabaseObject::parse("/****** Object:  view [dbo].[X]    ******/\n").is_none());
}

#[test]
fn marker_needs_prefix_and_brackets() {
    assert!(DatabaseObject::parse("/***** Object:  View [dbo].[X]\n").is_none());
    assert!(DatabaseObject::parse(" /****** Object:  View [dbo].[X]\n").is_none());
    assert!(DatabaseObject::parse("/****** Object:  View dbo.X\n").is_none());
    assert!(DatabaseObject::parse("/****** Object:  View\n").is_none());
    assert!(DatabaseObject::parse("/****** Object:View [dbo].[X]\n").is_none());
    assert!(DatabaseObject::parse("/****** Object:  View []\n").is_none());
}

#[test]
fn marker_name_without_schema() {
    let o = DatabaseObject::parse("/****** Object:  Database [Sales]    ******/\n").unwrap();
    assert_eq!(o.object_type, ObjectType::Database);
    assert_eq!(o.schema, "");
    assert_eq!(o.name, "Sales");
}

#[test]
fn marker_takes_longest_schema() {
    let o = DatabaseObject::parse("/****** Object:  Index [a].[b].[c]\n").unwrap();
    assert_eq!(o.schema, "a].[b");
    assert_eq!(o.name, "c");
}

#[test]
fn kind_names() {
    assert_eq!(ObjectType::StoredProcedure.name(), "StoredProcedure");
    assert_eq!(ObjectType::DdlTrigger.to_string(), "DdlTrigger");
    assert_eq!(ObjectType::from_name("UserDefinedDataType"), Some(ObjectType::UserDefinedDataType));
    assert_eq!(ObjectType::from_name("Views"), None);
    assert_eq!(ObjectType::from_name(""), None);
}

#[test]
fn preamble_replaced_by_later_switch() {
    let input = "USE [DB]\nGO\n/****** Object:  Table [dbo].[A]\nx\nUSE [Other]\nGO\ny\n/****** Object:  Table [dbo].[B]\nz\n";
    let (outs, _, end) = split(input, "out", false);
    assert_eq!(end, Ok(()));
    assert_eq!(outs.len(), 2);
    assert_eq!(outs[0].1, "USE [DB]\nGO\n/****** Object:  Table [dbo].[A]\nx\ny\n");
    assert_eq!(outs[1].1, "USE [Other]\nGO\n/****** Object:  Table [dbo].[B]\nz\n");
    assert!(outs[0].1.starts_with("USE [DB]\nGO\n"));
}

#[test]
fn no_context_switch_means_no_preamble() {
    let (outs, _, _) = split("/****** Object:  View [dbo].[V]\nbody\n", "r", false);
    assert_eq!(outs[0].1, "/****** Object:  View [dbo].[V]\nbody\n");
}

#[test]
fn one_output_per_marker() {
    let input = "a\n/****** Object:  View [dbo].[V1]\n/****** Object:  Bogus [dbo].[V2]\n/****** Object:  Table [dbo].[T]\nb\n/****** Object:  Table [dbo].[T]\n";
    let (outs, dropped, _) = split(input, "r", false);
    assert_eq!(outs.len(), 3);
    assert_eq!(dropped, "a\n");
    assert_eq!(outs[0].1, "/****** Object:  View [dbo].[V1]\n/****** Object:  Bogus [dbo].[V2]\n");
    assert_eq!(outs[1].0, outs[2].0);
}

#[test]
fn unknown_marker_before_any_output_is_dropped() {
    let (outs, dropped, _) = split("/****** Object:  Bogus [dbo].[X]\nq\n", "r", false);
    assert!(outs.is_empty());
    assert_eq!(dropped, "/****** Object:  Bogus [dbo].[X]\nq\n");
}

#[test]
fn lossless_without_context_switch() {
    let input = "-- header\r\nSET ANSI_NULLS ON\n/****** Object:  Synonym [s].[n]\r\nCREATE SYNONYM\n\n/****** Object:  Sequence [s].[q]\nlast line without newline";
    let (outs, dropped, _) = split(input, "r", false);
    let mut all = dropped.clone();
    for (_, c) in &outs {
        all.push_str(c);
    }
    assert_eq!(all, input);
}

#[test]
fn filename_policy() {
    let o = DatabaseObject::parse("/****** Object:  View [dbo].[V1]\n").unwrap();
    assert_eq!(o.file_name(false), "dbo.V1.sql");
    assert_eq!(o.file_name(true), "V1.sql");
    assert_eq!(o.path_in("out", true), "out/View/V1.sql");
    let o = DatabaseObject::parse("/****** Object:  Schema [sales]\n").unwrap();
    assert_eq!(o.file_name(false), "sales.sql");
    assert_eq!(o.path_in("arch", false), "arch/Schema/sales.sql");
}

#[test]
fn names_only_option_in_pass() {
    let (outs, _, _) = split("/****** Object:  Trigger [dbo].[trg]\n", "d", true);
    assert_eq!(outs[0].0, "d/Trigger/trg.sql");
}

#[test]
fn unterminated_context_switch_fails() {
    let (_, _, end) = split("/****** Object:  View [dbo].[V]\nUSE [DB]\n", "r", false);
    assert_eq!(end, Err(SplitError::UnterminatedContext));
}

#[test]
fn context_switch_takes_next_line_whatever_it_is() {
    let (outs, _, end) = split("USE [DB]\n/****** Object:  View [dbo].[V]\nx\n", "r", false);
    assert_eq!(end, Ok(()));
    assert!(outs.is_empty());
}

#[test]
fn use_needs_trailing_space() {
    let (outs, _, _) = split("/****** Object:  View [dbo].[V]\nUSEFUL\nuse [x]\n", "r", false);
    assert_eq!(outs[0].1, "/****** Object:  View [dbo].[V]\nUSEFUL\nuse [x]\n");
}

#[test]
fn trailing_separator_trimmed() {
    assert_eq!(trim_dir("out/"), "out");
    assert_eq!(trim_dir("out\\"), "out");
    assert_eq!(trim_dir("out//"), "out/");
    assert_eq!(trim_dir("out"), "out");
    assert_eq!(trim_dir(""), "");
}

#[test]
fn marker_any_white_space_between_parts() {
    let o = DatabaseObject::parse("/****** Object:\tSequence\u{3000}[dbo].[seq_1]\r\n").unwrap();
    assert_eq!(o.object_type, ObjectType::Sequence);
    assert_eq!(o.schema, "dbo");
    assert_eq!(o.name, "seq_1");
}

#[test]
fn marker_name_runs_to_last_bracket() {
    let o = DatabaseObject::parse("/****** Object:  User [dbo].[a]b]  ******/\n").unwrap();
    assert_eq!(o.schema, "dbo");
    assert_eq!(o.name, "a]b");
}
