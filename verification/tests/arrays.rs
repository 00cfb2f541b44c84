use arrow::array::{Int32Array, StringArray};

use rewire_viewer::util::{extract_text, extract_texts, TextArray};

#[test]
fn extract_texts_reads_every_slot() {
    let array = StringArray::from(vec!["/talker", "/listener", ""]);
    let texts = TextArray::from_array(&array);
    assert!(texts.is_some());
    assert_eq!(
        extract_texts(texts.as_ref()),
        vec!["/talker".to_string(), "/listener".to_string(), String::new()]
    );
}

#[test]
fn extract_texts_of_a_non_string_array_is_empty() {
    let array = Int32Array::from(vec![1, 2, 3]);
    let texts = TextArray::from_array(&array);
    assert!(texts.is_none());
    assert!(extract_texts(texts.as_ref()).is_empty());
    assert!(extract_texts(None).is_empty());
}

#[test]
fn extract_texts_through_a_dyn_array() {
    let array: arrow::array::ArrayRef = std::sync::Arc::new(StringArray::from(vec!["x", "y"]));
    let texts = TextArray::from_array(array.as_ref());
    assert_eq!(extract_texts(texts.as_ref()), vec!["x".to_string(), "y".to_string()]);
}

#[test]
fn extract_text_takes_the_first_slot() {
    let array = StringArray::from(vec!["first", "second"]);
    let texts = TextArray::from_array(&array);
    assert_eq!(extract_text(texts.as_ref()), Some("first".to_string()));
}

#[test]
fn extract_text_of_an_empty_or_non_string_array_is_none() {
    let empty = StringArray::from(Vec::<&str>::new());
    assert_eq!(extract_text(TextArray::from_array(&empty).as_ref()), None);
    let numbers = Int32Array::from(vec![5]);
    assert_eq!(extract_text(TextArray::from_array(&numbers).as_ref()), None);
    assert_eq!(extract_text(None), None);
}

#[test]
fn extract_text_is_the_first_of_extract_texts() {
    for values in [vec![], vec!["a"], vec!["b", "c"]] {
        let array = StringArray::from(values);
        let texts = TextArray::from_array(&array);
        assert_eq!(
            extract_text(texts.as_ref()),
            extract_texts(texts.as_ref()).first().cloned()
        );
    }
}
