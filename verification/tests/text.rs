use identity::cmd::{Get, Ping, Reset, SetCommand};
use identity::search::{matching_lines, search};

#[test]
fn one_result() {
    let query = "duct";
    let contents = "\\ \nRust:\nsafe, fast, productive.\nPick three.";
    assert_eq!(vec!["safe, fast, productive."], search(query, contents));
}

#[test]
fn search_keeps_every_matching_line_in_order() {
    let contents = "one\r\ntwo one\n\nthree\nlone";
    assert_eq!(search("one", contents), vec!["one", "two one", "lone"]);
    assert_eq!(search("", contents), vec!["one", "two one", "", "three", "lone"]);
    assert!(search("four", contents).is_empty());
    assert!(search("one", "").is_empty());
    assert_eq!(search("One", contents), Vec::<&str>::new());
}

#[test]
fn commands_hold_what_they_were_made_with() {
    let get = Get::new("name");
    assert_eq!(get.key(), "name");
    let set = SetCommand::new("name", "value");
    assert_eq!(set.key(), "name");
    assert_eq!(set.value(), "value");
    let ping = Ping::new("still there?");
    assert_eq!(ping.reply(), "STILL THERE?");
    assert_eq!(Ping::new("").reply(), "");
    let reset = Reset::new(String::from("now"));
    assert_eq!(format!("{:?}", reset), "Reset { _msg: \"now\" }");
}

#[test]
fn lines_end_at_line_feeds_and_lose_one_carriage_return() {
    let all = |text: &'static str| search("", text);
    assert_eq!(all("foo\r\nbar\n\nbaz\r"), vec!["foo", "bar", "", "baz\r"]);
    assert_eq!(all("foo\nbar\n"), vec!["foo", "bar"]);
    assert_eq!(all("foo\nbar"), vec!["foo", "bar"]);
    assert_eq!(all("\n"), vec![""]);
    assert_eq!(all("\n\n"), vec!["", ""]);
    assert_eq!(all("\r\n"), vec![""]);
    assert_eq!(all("\r"), vec!["\r"]);
    assert_eq!(all("a\r\r\nb"), vec!["a\r", "b"]);
    assert_eq!(all("a\rb\nc"), vec!["a\rb", "c"]);
    assert_eq!(all(""), Vec::<&str>::new());
    assert_eq!(all("no line feed"), vec!["no line feed"]);
}

#[test]
fn matching_lines_filters_the_lines_it_is_given() {
    let lines = vec!["alpha", "beta", "", "alphabet", "bet"];
    assert_eq!(matching_lines("alpha", &lines), vec!["alpha", "alphabet"]);
    assert_eq!(matching_lines("bet", &lines), vec!["beta", "alphabet", "bet"]);
    assert_eq!(matching_lines("", &lines), lines);
    assert_eq!(matching_lines("gamma", &lines), Vec::<&str>::new());
    assert_eq!(matching_lines("alphabets", &lines), Vec::<&str>::new());
    assert_eq!(matching_lines("x", &Vec::new()), Vec::<&str>::new());
    // a line is taken as it is given, line feeds and all
    assert_eq!(matching_lines("a\nb", &vec!["a\nb", "ab"]), vec!["a\nb"]);
}

#[test]
fn default_reset_has_an_empty_message() {
    let reset = Reset::default();
    assert_eq!(format!("{:?}", reset), "Reset { _msg: \"\" }");
}
