use farms::address::Address;
use farms::canton::Canton;
use farms::categories::Categories;
use farms::farm_name::FarmName;
use farms::name::Name;

#[test]
fn address_messages() {
    assert_eq!(Address::parse("".to_string()).unwrap_err().message(), "Address cannot be empty.");
    assert_eq!(
        Address::parse("A 1".to_string()).unwrap_err().message(),
        "Address is too short (min 5 characters, got 3)."
    );
    assert_eq!(
        Address::parse("a".repeat(1234)).unwrap_err().message(),
        "Address is too long (max 200 characters, got 1234)."
    );
}

#[test]
fn canton_messages() {
    assert_eq!(Canton::parse(" ".to_string()).unwrap_err().message(), "Canton code cannot be empty.");
    assert_eq!(
        Canton::parse("DE".to_string()).unwrap_err().message(),
        "Invalid canton code: DE. Must be a valid Swiss canton abbreviation (e.g., 'ZH', 'BE', 'LU')."
    );
}

#[test]
fn name_messages() {
    assert_eq!(Name::parse("".to_string()).unwrap_err().message(), "Farm name cannot be empty.");
    assert_eq!(
        Name::parse("k".repeat(300)).unwrap_err().message(),
        "Farm name is too long (max 256 characters, got 300."
    );
    assert_eq!(
        Name::parse("a/b".to_string()).unwrap_err().message(),
        "Farm name contains forbidden characters: '/'."
    );
    assert_eq!(
        FarmName::parse("a}b".to_string()).unwrap_err().message(),
        "Farm name contains forbidden characters: '}'"
    );
    assert_eq!(
        FarmName::parse("k".repeat(1000)).unwrap_err().message(),
        "Farm name is too long (max 256 characters, got 1000."
    );
}

#[test]
fn categories_messages() {
    assert_eq!(
        Categories::parse(vec![]).unwrap_err().message(),
        "Categories list cannot be empty."
    );
    assert_eq!(
        Categories::parse(vec!["x".to_string(); 60]).unwrap_err().message(),
        "Too many categories: 60. Maximim allowed is 50."
    );
    assert_eq!(
        Categories::parse(vec![" ".to_string()]).unwrap_err().message(),
        "Category ' ' is empty or whitespace."
    );
    assert_eq!(
        Categories::parse(vec!["k".repeat(57)]).unwrap_err().message(),
        format!("Categories '{}' exceeds maximum length of 50 characters (actual: 57.", "k".repeat(57))
    );
    assert_eq!(
        Categories::parse(vec!["Egg".to_string(), "egg".to_string()]).unwrap_err().message(),
        "Duplicate category: 'egg'."
    );
}
