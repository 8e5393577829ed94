use farms::categories::{Categories, CategoriesError, MAX_CATEGORIES, MAX_CATEGORY_NAME_LENGTH};

#[test]
fn valid_single_category_is_valid() {
    let category = Categories::parse(vec!["Dairy".to_string()]);
    assert!(category.is_ok());
}

#[test]
fn multiple_categories_is_valid() {
    let categories = Categories::parse(vec![
        "Dairy".to_string(),
        "Egg".to_string(),
        "Fruit".to_string(),
        "Vegetables".to_string(),
    ]);
    assert!(categories.is_ok());
    assert_eq!(categories.unwrap().len(), 4);
}

#[test]
fn empty_categories_vector_is_rejected() {
    let empty_categories = Categories::parse(vec![]);
    assert!(empty_categories.is_err());
}

#[test]
fn empty_category_is_rejected() {
    let vec_with_empty_category = Categories::parse(vec!["Dairy".to_string(), "".to_string()]);
    assert!(vec_with_empty_category.is_err());
}

#[test]
fn whitespace_only_category_is_rejected() {
    let vec_with_whitespace_category = Categories::parse(vec!["Dairy".to_string(), " ".to_string()]);
    assert!(vec_with_whitespace_category.is_err());
}

#[test]
fn max_category_name_length_is_valid() {
    let category_with_max_name_length = "k".repeat(MAX_CATEGORY_NAME_LENGTH);
    let categories = Categories::parse(vec![
        "Dairy".to_string(),
        category_with_max_name_length.to_string(),
    ]);
    assert!(categories.is_ok());
}

#[test]
fn more_than_max_category_name_length_is_rejected() {
    let category_with_max_name_length = "k".repeat(MAX_CATEGORY_NAME_LENGTH + 1);
    let categories = Categories::parse(vec![
        "Dairy".to_string(),
        category_with_max_name_length.to_string(),
    ]);
    assert!(categories.is_err());
}

#[test]
fn max_number_of_categories_is_valid() {
    let max_number_of_categories: Vec<String> =
        (0..MAX_CATEGORIES).map(|i| format!("Category{}", i)).collect();
    let categories = Categories::parse(max_number_of_categories);
    assert!(categories.is_ok());
}

#[test]
fn more_than_max_number_of_categories_is_rejected() {
    let max_number_of_categories: Vec<String> =
        (0..MAX_CATEGORIES + 1).map(|i| format!("Category{}", i)).collect();
    let categories = Categories::parse(max_number_of_categories);
    assert!(categories.is_err());
}

#[test]
fn duplicate_categories_are_rejected() {
    let categories = Categories::parse(vec![
        "Dairy".to_string(),
        "Egg".to_string(),
        "Egg".to_string(),
        "Vegetables".to_string(),
    ]);
    assert!(categories.is_err());
}

#[test]
fn duplicate_categories_case_insensitive_are_rejected() {
    let categories = Categories::parse(vec![
        "Dairy".to_string(),
        "Egg".to_string(),
        "EGG".to_string(),
        "Vegetables".to_string(),
    ]);
    assert!(categories.is_err());
}

#[test]
fn duplicate_categories_mixed_case_insensitive_are_rejected() {
    let categories = Categories::parse(vec![
        "Dairy".to_string(),
        "Egg".to_string(),
        "EGG".to_string(),
        "EgG".to_string(),
        "eGg".to_string(),
        "egG".to_string(),
        "Vegetables".to_string(),
    ]);
    assert!(categories.is_err());
}

#[test]
fn categories_are_trimmed() {
    let categories = Categories::parse(vec![
        "  Dairy".to_string(),
        "Egg  ".to_string(),
        "  Vegetables   ".to_string(),
    ]);
    assert!(categories.is_ok());
    let categories = categories.unwrap();
    assert_eq!(categories.as_slice()[0], "Dairy");
    assert_eq!(categories.as_slice()[1], "Egg");
    assert_eq!(categories.as_slice()[2], "Vegetables");
}

#[test]
fn implements_checks_case_insensitive() {
    let categories = Categories::parse(vec!["Dairy".to_string(), "Egg".to_string()]).unwrap();

    assert!(categories.contains("dairy"));
    assert!(categories.contains("DAIRY"));
    assert!(categories.contains("Dairy"));
    assert!(categories.contains("DaIrY"));

    assert!(categories.contains("egg"));
    assert!(categories.contains("eGg"));
    assert!(categories.contains("egG"));
    assert!(categories.contains("eGG"));
    assert!(categories.contains("EGG"));
}

#[test]
fn displays_formats_correctly() {
    let categories = Categories::parse(vec!["Dairy".to_string(), "Egg".to_string()]).unwrap();
    assert_eq!(categories.to_string(), "Dairy, Egg");
}

#[test]
fn common_farm_items_categories_are_valid() {
    let common_categories = vec![
        "Dairy".to_string(),
        "Organic".to_string(),
        "Vegetables".to_string(),
        "Fruits".to_string(),
        "Livestock".to_string(),
        "Grains".to_string(),
        "Poultry".to_string(),
        "Aquaculture".to_string(),
    ];
    let categories = Categories::parse(common_categories);
    assert!(categories.is_ok());
}

#[test]
fn unicode_diacritics_in_categories() {
    let unicode_categories = vec![
        "Käse".to_string(),
        "Gemüse".to_string(),
        "Légumes".to_string(),
        "Château".to_string(),
        "Gruyère".to_string(),
        "Maraîchage".to_string(),
    ];
    let categories = Categories::parse(unicode_categories);
    assert!(categories.is_ok());
}

#[test]
fn swiss_categories_all_four_languages_are_valid() {
    let swiss_categories = vec![
        "Käse".to_string(),
        "Milchwirtschaft".to_string(),
        "Obstbau".to_string(),
        "Gemüsebau".to_string(),
        "Alpkäse".to_string(),
        "Berglandwirtschaft".to_string(),
        "Fromage".to_string(),
        "Viticulture".to_string(),
        "Vignoble".to_string(),
        "Agriculture bio".to_string(),
        "Maraîchage".to_string(),
        "Élevage".to_string(),
        "Formaggio".to_string(),
        "Viticoltura".to_string(),
        "Vigneto".to_string(),
        "Agricoltura".to_string(),
        "Castagne".to_string(),
        "Chaschiel".to_string(),
        "Látg".to_string(),
        "Agricultura".to_string(),
        "Cultivaziun".to_string(),
        "Emmentaler".to_string(),
        "Gruyère".to_string(),
        "Appenzeller".to_string(),
        "Raclette".to_string(),
    ];
    let categories = Categories::parse(swiss_categories);
    assert!(categories.is_ok());
}

#[test]
fn len_returns_correct_count() {
    let categories = Categories::parse(vec!["Dairy".to_string(), "Egg".to_string()]).unwrap();
    assert_eq!(categories.len(), 2);
}

#[test]
fn is_empty_returns_false_after_validation() {
    let categories = Categories::parse(vec!["Dairy".to_string(), "Egg".to_string()]).unwrap();
    assert!(!categories.is_empty());
}

#[test]
fn as_slice_returns_correct_data() {
    let categories = Categories::parse(vec!["Dairy".to_string(), "Egg".to_string()]).unwrap();
    let slice = categories.as_slice();
    assert_eq!(slice.len(), 2);
    assert_eq!(slice[0], "Dairy");
    assert_eq!(slice[1], "Egg");
}

#[test]
fn into_inner_consumes_and_returns_vec() {
    let categories = Categories::parse(vec!["Dairy".to_string(), "Egg".to_string()]).unwrap();
    let slice = categories.into_inner();
    assert_eq!(slice.len(), 2);
    assert_eq!(slice[0], "Dairy");
    assert_eq!(slice[1], "Egg");
}

#[test]
fn preserves_original_casing() {
    let categories = Categories::parse(vec![
        "DaIrY".to_string(),
        "EGG".to_string(),
        "vegetables".to_string(),
    ])
    .unwrap();
    assert_eq!(categories.as_slice()[0], "DaIrY");
    assert_eq!(categories.as_slice()[1], "EGG");
    assert_eq!(categories.as_slice()[2], "vegetables");
}

#[test]
fn categories_equal_regardless_of_order() {
    let cat1 = Categories::parse(vec!["A".to_string(), "B".to_string()]).unwrap();
    let cat2 = Categories::parse(vec!["B".to_string(), "A".to_string()]).unwrap();
    assert_eq!(cat1, cat2);
}

#[test]
fn categories_differing_in_case_are_not_equal() {
    let cat1 = Categories::parse(vec!["A".to_string(), "B".to_string()]).unwrap();
    let cat2 = Categories::parse(vec!["a".to_string(), "B".to_string()]).unwrap();
    assert_ne!(cat1, cat2);
    let cat3 = Categories::parse(vec!["A".to_string()]).unwrap();
    assert_ne!(cat1, cat3);
}

#[test]
fn each_categories_error_variant_is_reachable() {
    assert!(matches!(Categories::parse(vec![]), Err(CategoriesError::EmptyCategories)));
    match Categories::parse(vec!["x".to_string(); 51]) {
        Err(CategoriesError::TooManyCategories { count, max }) => {
            assert_eq!(count, 51);
            assert_eq!(max, 50);
        }
        other => panic!("unexpected: {:?}", other),
    }
    match Categories::parse(vec!["Dairy".to_string(), " \t".to_string()]) {
        Err(CategoriesError::EmptyCategoryValue(c)) => assert_eq!(c, " \t"),
        other => panic!("unexpected: {:?}", other),
    }
    match Categories::parse(vec![format!("  {}  ", "k".repeat(51))]) {
        Err(CategoriesError::CategoryLengthTooLong { category, max, actual }) => {
            assert_eq!(category, "k".repeat(51));
            assert_eq!(max, 50);
            assert_eq!(actual, 51);
        }
        other => panic!("unexpected: {:?}", other),
    }
    match Categories::parse(vec!["Egg".to_string(), " eGG ".to_string()]) {
        Err(CategoriesError::DuplicateCategory(c)) => assert_eq!(c, "eGG"),
        other => panic!("unexpected: {:?}", other),
    }
}

#[test]
fn category_length_is_counted_in_bytes() {
    // 25 two-byte characters make 50 bytes; 26 make 52.
    assert!(Categories::parse(vec!["ä".repeat(25)]).is_ok());
    assert!(Categories::parse(vec!["ä".repeat(26)]).is_err());
}

#[test]
fn first_refused_entry_decides_the_error() {
    match Categories::parse(vec!["a".to_string(), "A".to_string(), "".to_string()]) {
        Err(CategoriesError::DuplicateCategory(c)) => assert_eq!(c, "A"),
        other => panic!("unexpected: {:?}", other),
    }
}

#[test]
fn single_category_displays_alone() {
    let categories = Categories::parse(vec!["Dairy".to_string()]).unwrap();
    assert_eq!(categories.to_string(), "Dairy");
    let copy = categories.clone();
    assert_eq!(copy, categories);
    assert_eq!(copy.as_vec().len(), 1);
}
