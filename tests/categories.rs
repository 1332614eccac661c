use typst_project::manifest::categories::Category;
use typst_project::manifest::disciplines::Discipline;

#[test]
fn category_names() {
    assert_eq!(Category::Components.to_str(), "components");
    assert_eq!(Category::Cv.to_str(), "cv");
    assert_eq!(Category::from_str("visualization").unwrap(), Category::Visualization);
    assert_eq!(Category::from_str("office").unwrap(), Category::Office);
    let err = Category::from_str("Office").unwrap_err();
    assert_eq!(err.value, "Office");
    assert_eq!(err.message(), "unknown category 'Office'");
    assert!(Category::from_str("").is_err());
}

#[test]
fn discipline_names() {
    assert_eq!(Discipline::ComputerScience.to_str(), "computer-science");
    assert_eq!(Discipline::Agriculture.to_str(), "agriculture");
    assert_eq!(
        Discipline::from_str("computer-science").unwrap(),
        Discipline::ComputerScience
    );
    assert_eq!(Discipline::from_str("transportation").unwrap(), Discipline::Transportation);
    assert!(Discipline::from_str("computerscience").is_err());
}

#[test]
fn variant_lists() {
    let all = Category::all();
    assert_eq!(all.len(), 19);
    assert_eq!(all[0], Category::Book);
    assert_eq!(all[18], Category::Visualization);
    assert_eq!(Category::functional().len(), 10);
    assert_eq!(Category::publication().len(), 9);
    for c in all {
        assert_eq!(Category::from_str(c.to_str()).unwrap(), c);
    }
    let disciplines = Discipline::all();
    assert_eq!(disciplines.len(), 36);
    for d in disciplines {
        assert_eq!(Discipline::from_str(d.to_str()).unwrap(), d);
    }
}
