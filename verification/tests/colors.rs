use entanglement_webapp::coloring::{color_by_exact_name, CollectionColors};
use entanglement_webapp::colors::CollectionColor;

#[test]
fn all_lists_each_color_once_in_picker_order() {
    let all = CollectionColor::all();
    assert_eq!(all.len(), 10);
    assert_eq!(all[0], CollectionColor::Red);
    assert_eq!(all[4], CollectionColor::Blue);
    assert_eq!(all[9], CollectionColor::Indigo);
    for (i, a) in all.iter().enumerate() {
        for b in all.iter().skip(i + 1) {
            assert_ne!(a, b);
        }
    }
}

#[test]
fn css_colors_match_the_palette() {
    assert_eq!(CollectionColor::Red.to_css_color(), "#EF4444");
    assert_eq!(CollectionColor::Gray.to_css_color(), "#6B7280");
    assert_eq!(CollectionColor::Indigo.to_css_color(), "#6366F1");
    assert_eq!(CollectionColor::Red.to_light_css_color(), "#FEF2F2");
    assert_eq!(CollectionColor::Teal.to_light_css_color(), "#F0FDFA");
    assert_eq!(CollectionColor::Blue.to_light_css_color(), "#EFF6FF");
}

#[test]
fn css_colors_are_distinct() {
    let all = CollectionColor::all();
    for (i, a) in all.iter().enumerate() {
        for b in all.iter().skip(i + 1) {
            assert_ne!(a.to_css_color(), b.to_css_color());
            assert_ne!(a.to_light_css_color(), b.to_light_css_color());
        }
    }
}

#[test]
fn names_read_back_to_the_same_color() {
    for c in CollectionColor::all() {
        assert_eq!(CollectionColor::from(c.to_string()), c);
        assert_eq!(CollectionColor::from_name(c.name()), c);
    }
    assert_eq!(CollectionColor::Purple.to_string(), "Purple");
}

#[test]
fn unknown_names_read_as_gray() {
    assert_eq!(CollectionColor::from(String::from("Magenta")), CollectionColor::Gray);
    assert_eq!(CollectionColor::from(String::from("red")), CollectionColor::Gray);
    assert_eq!(CollectionColor::from(String::new()), CollectionColor::Gray);
    assert_eq!(CollectionColor::from(String::from("Gray")), CollectionColor::Gray);
}

#[test]
fn picker_value_must_name_a_color_exactly() {
    assert_eq!(color_by_exact_name("Teal"), Some(CollectionColor::Teal));
    assert_eq!(color_by_exact_name("Gray"), Some(CollectionColor::Gray));
    assert_eq!(color_by_exact_name("Magenta"), None);
    assert_eq!(color_by_exact_name("teal"), None);
}

#[test]
fn collection_colors_set_replace_and_remove() {
    let mut colors = CollectionColors::new();
    assert!(colors.is_empty());
    colors.set_color(7, CollectionColor::Red);
    colors.set_color(9, CollectionColor::Blue);
    assert_eq!(colors.color_of(7), Some(CollectionColor::Red));
    colors.set_color(7, CollectionColor::Green);
    assert_eq!(colors.color_of(7), Some(CollectionColor::Green));
    colors.remove(7);
    assert_eq!(colors.color_of(7), None);
    assert_eq!(colors.color_of(9), Some(CollectionColor::Blue));
    assert!(!colors.is_empty());
}

#[test]
fn uncolored_results_keep_their_order() {
    let mut colors = CollectionColors::new();
    colors.set_color(2, CollectionColor::Pink);
    colors.set_color(5, CollectionColor::Gray);
    assert_eq!(colors.uncolored(&vec![1, 2, 3, 5, 4]), vec![1, 3, 4]);
    assert_eq!(colors.uncolored(&vec![]), Vec::<u64>::new());
}

#[test]
fn card_indicators_list_colored_collections_once() {
    let mut colors = CollectionColors::new();
    colors.set_color(2, CollectionColor::Pink);
    colors.set_color(5, CollectionColor::Gray);
    colors.set_color(8, CollectionColor::Red);
    let dots = colors.indicators(&vec![5, 1, 2, 5]);
    assert_eq!(dots, vec![(5, CollectionColor::Gray), (2, CollectionColor::Pink)]);
    assert_eq!(colors.indicators(&vec![1, 3]), vec![]);
}
