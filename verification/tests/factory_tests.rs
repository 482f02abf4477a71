use design_patterns::factory::{
    ConcreteProductX1, ConcreteProductY2, FactoryID, ProductXEnum, ProductYEnum, create_factory,
};

#[test]
fn factory_a_pairs_the_first_variants() {
    let f = create_factory(FactoryID::A);
    assert!(matches!(f.create_product_x(), ProductXEnum::ConcreteProductX1(_)));
    assert!(matches!(f.create_product_y(), ProductYEnum::ConcreteProductY1(_)));
}

#[test]
fn factory_b_pairs_the_second_variants() {
    let f = create_factory(FactoryID::B);
    assert!(matches!(f.create_product_x(), ProductXEnum::ConcreteProductX2(_)));
    assert!(matches!(f.create_product_y(), ProductYEnum::ConcreteProductY2(_)));
}

#[test]
fn factory_a_product_x_value() {
    let f = create_factory(FactoryID::A);
    assert_eq!(f.create_product_x().get_value(), "FactoryB ProductX");
}

#[test]
fn factory_b_product_y_value() {
    let f = create_factory(FactoryID::B);
    assert_eq!(f.create_product_y().get_value(), "FactoryB ProductY");
}

#[test]
fn all_four_products_are_labelled() {
    let a = create_factory(FactoryID::A);
    let b = create_factory(FactoryID::B);
    assert_eq!(a.create_product_x().get_value(), "FactoryB ProductX");
    assert_eq!(a.create_product_y().get_value(), "FactoryB ProductY");
    assert_eq!(b.create_product_x().get_value(), "FactoryB ProductX");
    assert_eq!(b.create_product_y().get_value(), "FactoryB ProductY");
}

#[test]
fn labels_end_in_the_family_suffix() {
    let a = create_factory(FactoryID::A);
    let b = create_factory(FactoryID::B);
    assert!(a.create_product_x().get_value().ends_with(" ProductX"));
    assert!(b.create_product_x().get_value().ends_with(" ProductX"));
    assert!(a.create_product_y().get_value().ends_with(" ProductY"));
    assert!(b.create_product_y().get_value().ends_with(" ProductY"));
}

#[test]
fn concrete_products_append_the_suffix_to_the_context() {
    let x = ConcreteProductX1::new(String::from("Ctx"));
    assert_eq!(x.get_value(), "Ctx ProductX");
    let y = ConcreteProductY2::new(String::from("Ctx"));
    assert_eq!(y.get_value(), "Ctx ProductY");
}
