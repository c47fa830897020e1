use dataframe_client::error::ErrorKind;
use dataframe_client::ids::IdAllocator;
use dataframe_client::operation::{OpNode, OperationType};
use dataframe_client::tokens::split_on_spaces;
use dataframe_client::wire::{
    decimal_text, encode_message, encode_node, frame_list, frame_message, frame_node, quote_all,
};

fn strings(items: &[&str]) -> Vec<String> {
    items.iter().map(|s| s.to_string()).collect()
}

#[test]
fn kinds_are_spelled_as_on_the_wire() {
    assert_eq!(OperationType::Read.name(), "Read");
    assert_eq!(OperationType::Select.name(), "Select");
    assert_eq!(OperationType::Where.name(), "Where");
    assert_eq!(OperationType::Sum.name(), "Sum");
    assert_eq!(OperationType::Count.name(), "Count");
    assert_eq!(OperationType::Fetch.name(), "Fetch");
    assert_eq!(OperationType::Empty.name(), "Empty");
}

#[test]
fn kinds_are_read_from_their_spelling() {
    let kinds = [
        OperationType::Read,
        OperationType::Select,
        OperationType::Where,
        OperationType::Sum,
        OperationType::Count,
        OperationType::Fetch,
        OperationType::Empty,
    ];
    for kind in kinds {
        assert_eq!(OperationType::from_name(kind.name()), Some(kind));
    }
    assert_eq!(OperationType::from_name("Sum"), Some(OperationType::Sum));
    assert_eq!(OperationType::from_name("sum"), None);
    assert_eq!(OperationType::from_name(""), None);
    assert_eq!(OperationType::from_name("Count "), None);
    assert_eq!(OperationType::from_name("Fetched"), None);
}

#[test]
fn kinds_are_lazy_or_eager() {
    let lazy = [OperationType::Read, OperationType::Select, OperationType::Where];
    let eager = [OperationType::Sum, OperationType::Count, OperationType::Fetch];
    for kind in lazy {
        assert!(kind.is_lazy());
        assert!(!kind.is_eager());
    }
    for kind in eager {
        assert!(kind.is_eager());
        assert!(!kind.is_lazy());
    }
    assert!(!OperationType::Empty.is_lazy());
    assert!(!OperationType::Empty.is_eager());
}

#[test]
fn allocator_counts_from_one() {
    let mut ids = IdAllocator::new();
    assert_eq!(ids.latest(), 0);
    assert_eq!(ids.next_id(), 1);
    assert_eq!(ids.next_id(), 2);
    assert_eq!(ids.next_id(), 3);
    assert_eq!(ids.latest(), 3);
}

#[test]
fn allocator_never_repeats() {
    let mut ids = IdAllocator::new();
    let mut previous = 0;
    for _ in 0..1000 {
        let id = ids.next_id();
        assert!(id > previous);
        previous = id;
    }
    assert_eq!(previous, 1000);
}

#[test]
fn split_keeps_every_piece() {
    assert_eq!(split_on_spaces("Year Title"), strings(&["Year", "Title"]));
    assert_eq!(split_on_spaces("Score > 90"), strings(&["Score", ">", "90"]));
    assert_eq!(split_on_spaces("Year"), strings(&["Year"]));
    assert_eq!(split_on_spaces(""), strings(&[""]));
    assert_eq!(split_on_spaces(" "), strings(&["", ""]));
    assert_eq!(split_on_spaces("a  b"), strings(&["a", "", "b"]));
    assert_eq!(split_on_spaces(" a "), strings(&["", "a", ""]));
    assert_eq!(split_on_spaces("é ü\tö"), strings(&["é", "ü\tö"]));
}

#[test]
fn split_agrees_with_std() {
    for text in ["", " ", "  ", "a", "a b", " a b ", "a  b   c", "日本 語", "x\ny z"] {
        let expected: Vec<String> = text.split(' ').map(|t| t.to_string()).collect();
        assert_eq!(split_on_spaces(text), expected);
        assert_eq!(split_on_spaces(text).join(" "), text);
    }
}

#[test]
fn decimal_text_of_numbers() {
    assert_eq!(decimal_text(0), "0");
    assert_eq!(decimal_text(7), "7");
    assert_eq!(decimal_text(9), "9");
    assert_eq!(decimal_text(10), "10");
    assert_eq!(decimal_text(109), "109");
    assert_eq!(decimal_text(1234567890), "1234567890");
    assert_eq!(decimal_text(usize::MAX), usize::MAX.to_string());
}

#[test]
fn lists_are_bracketed_and_comma_separated() {
    assert_eq!(frame_list(&strings(&[])), "[]");
    assert_eq!(frame_list(&strings(&["1"])), "[1]");
    assert_eq!(frame_list(&strings(&["1", "22", "333"])), "[1,22,333]");
    assert_eq!(frame_list(&strings(&["", ""])), "[,]");
}

#[test]
fn node_frame_has_three_fields_in_order() {
    assert_eq!(
        frame_node(12, OperationType::Select, "[\"a\",\"b\"]"),
        "{\"id\":12,\"function_name\":\"Select\",\"args\":[\"a\",\"b\"]}"
    );
    assert_eq!(
        frame_node(0, OperationType::Empty, "[]"),
        "{\"id\":0,\"function_name\":\"Empty\",\"args\":[]}"
    );
}

#[test]
fn message_frame_has_two_fields_in_order() {
    assert_eq!(frame_message("[]", 0), "{\"operations\":[],\"checkpoint\":0}");
    assert_eq!(frame_message("[x,y]", 41), "{\"operations\":[x,y],\"checkpoint\":41}");
}

#[test]
fn quoting_escapes_what_json_requires() {
    assert_eq!(quote_all(&strings(&[])), Ok(strings(&[])));
    assert_eq!(
        quote_all(&strings(&["Year", "", "a\"b", "back\\slash", "tab\there", "é"])),
        Ok(strings(&[
            "\"Year\"",
            "\"\"",
            "\"a\\\"b\"",
            "\"back\\\\slash\"",
            "\"tab\\there\"",
            "\"é\""
        ]))
    );
}

#[test]
fn node_text_of_each_arity() {
    let read = OpNode { id: 1, function_name: OperationType::Read, args: strings(&["deniro.csv"]) };
    let filter =
        OpNode { id: 3, function_name: OperationType::Where, args: strings(&["Score", ">", "90"]) };
    let count = OpNode { id: 5, function_name: OperationType::Count, args: strings(&[]) };
    assert_eq!(
        encode_node(&read),
        Ok("{\"id\":1,\"function_name\":\"Read\",\"args\":[\"deniro.csv\"]}".to_string())
    );
    assert_eq!(
        encode_node(&filter),
        Ok("{\"id\":3,\"function_name\":\"Where\",\"args\":[\"Score\",\">\",\"90\"]}".to_string())
    );
    assert_eq!(
        encode_node(&count),
        Ok("{\"id\":5,\"function_name\":\"Count\",\"args\":[]}".to_string())
    );
}

#[test]
fn message_text_of_graphs() {
    let none: Vec<OpNode> = Vec::new();
    assert_eq!(
        encode_message(&none, 9),
        Ok::<String, ErrorKind>("{\"operations\":[],\"checkpoint\":9}".to_string())
    );
    let two = vec![
        OpNode { id: 10, function_name: OperationType::Read, args: strings(&["t.csv"]) },
        OpNode { id: 11, function_name: OperationType::Fetch, args: strings(&[]) },
    ];
    assert_eq!(
        encode_message(&two, 9),
        Ok("{\"operations\":[{\"id\":10,\"function_name\":\"Read\",\"args\":[\"t.csv\"]},\
            {\"id\":11,\"function_name\":\"Fetch\",\"args\":[]}],\"checkpoint\":9}"
            .to_string())
    );
}
