//! An abstract factory producing two paired families of labelled products.
//!
//! A factory identity fixes the concrete variant of each family it creates:
//! factory A builds the first variant of each family, factory B the second.
//! Every product carries a string label fixed at construction; the label is
//! the construction context followed by the family suffix. Both concrete
//! factories pass the literal context `"FactoryB"`, an oddity of the design
//! that is preserved as observable output.

use vstd::prelude::*;
use vstd::string::StringExecFns;

verus! {

/// First concrete product of family X.
pub struct ConcreteProductX1(String);

/// Second concrete product of family X.
pub struct ConcreteProductX2(String);

/// First concrete product of family Y.
pub struct ConcreteProductY1(String);

/// Second concrete product of family Y.
pub struct ConcreteProductY2(String);

impl View for ConcreteProductX1 {
    type V = Seq<char>;

    closed spec fn view(&self) -> Seq<char> {
        self.0@
    }
}

impl View for ConcreteProductX2 {
    type V = Seq<char>;

    closed spec fn view(&self) -> Seq<char> {
        self.0@
    }
}

impl View for ConcreteProductY1 {
    type V = Seq<char>;

    closed spec fn view(&self) -> Seq<char> {
        self.0@
    }
}

impl View for ConcreteProductY2 {
    type V = Seq<char>;

    closed spec fn view(&self) -> Seq<char> {
        self.0@
    }
}

impl ConcreteProductX1 {
    /// Label the product with `msg` followed by the family X suffix.
    pub fn new(msg: String) -> (p: Self)
        ensures
            p@ == msg@ + " ProductX"@,
    {
        ConcreteProductX1(msg.concat(" ProductX"))
    }

    /// The product's label.
    pub fn get_value(&self) -> (v: String)
        ensures
            v@ == self@,
    {
        self.0.clone()
    }
}

impl ConcreteProductX2 {
    /// Label the product with `msg` followed by the family X suffix.
    pub fn new(msg: String) -> (p: Self)
        ensures
            p@ == msg@ + " ProductX"@,
    {
        ConcreteProductX2(msg.concat(" ProductX"))
    }

    /// The product's label.
    pub fn get_value(&self) -> (v: String)
        ensures
            v@ == self@,
    {
        self.0.clone()
    }
}

impl ConcreteProductY1 {
    /// Label the product with `msg` followed by the family Y suffix.
    pub fn new(msg: String) -> (p: Self)
        ensures
            p@ == msg@ + " ProductY"@,
    {
        ConcreteProductY1(msg.concat(" ProductY"))
    }

    /// The product's label.
    pub fn get_value(&self) -> (v: String)
        ensures
            v@ == self@,
    {
        self.0.clone()
    }
}

impl ConcreteProductY2 {
    /// Label the product with `msg` followed by the family Y suffix.
    pub fn new(msg: String) -> (p: Self)
        ensures
            p@ == msg@ + " ProductY"@,
    {
        ConcreteProductY2(msg.concat(" ProductY"))
    }

    /// The product's label.
    pub fn get_value(&self) -> (v: String)
        ensures
            v@ == self@,
    {
        self.0.clone()
    }
}

/// A product of family X: exactly one of the two concrete variants.
pub enum ProductXEnum {
    ConcreteProductX1(ConcreteProductX1),
    ConcreteProductX2(ConcreteProductX2),
}

/// A product of family Y: exactly one of the two concrete variants.
pub enum ProductYEnum {
    ConcreteProductY1(ConcreteProductY1),
    ConcreteProductY2(ConcreteProductY2),
}

impl View for ProductXEnum {
    type V = Seq<char>;

    open spec fn view(&self) -> Seq<char> {
        match self {
            ProductXEnum::ConcreteProductX1(x1) => x1@,
            ProductXEnum::ConcreteProductX2(x2) => x2@,
        }
    }
}

impl View for ProductYEnum {
    type V = Seq<char>;

    open spec fn view(&self) -> Seq<char> {
        match self {
            ProductYEnum::ConcreteProductY1(y1) => y1@,
            ProductYEnum::ConcreteProductY2(y2) => y2@,
        }
    }
}

impl ProductXEnum {
    /// The label of whichever concrete product this is.
    pub fn get_value(&self) -> (v: String)
        ensures
            v@ == self@,
    {
        match self {
            ProductXEnum::ConcreteProductX1(x1) => x1.get_value(),
            ProductXEnum::ConcreteProductX2(x2) => x2.get_value(),
        }
    }
}

impl ProductYEnum {
    /// The label of whichever concrete product this is.
    pub fn get_value(&self) -> (v: String)
        ensures
            v@ == self@,
    {
        match self {
            ProductYEnum::ConcreteProductY1(y1) => y1.get_value(),
            ProductYEnum::ConcreteProductY2(y2) => y2.get_value(),
        }
    }
}

/// The factory identities: a closed set of two.
#[derive(Clone, Copy, Debug, PartialEq, Eq, Structural)]
pub enum FactoryID {
    A,
    B,
}

/// The factory producing the first variant of each family.
pub struct ConcreteFactoryA;

/// The factory producing the second variant of each family.
pub struct ConcreteFactoryB;

impl ConcreteFactoryA {
    /// Build this factory's family X product.
    pub fn create_product_x(&self) -> (p: ProductXEnum)
        ensures
            p is ConcreteProductX1,
            p@ == "FactoryB"@ + " ProductX"@,
    {
        ProductXEnum::ConcreteProductX1(ConcreteProductX1::new("FactoryB".to_owned()))
    }

    /// Build this factory's family Y product.
    pub fn create_product_y(&self) -> (p: ProductYEnum)
        ensures
            p is ConcreteProductY1,
            p@ == "FactoryB"@ + " ProductY"@,
    {
        ProductYEnum::ConcreteProductY1(ConcreteProductY1::new("FactoryB".to_owned()))
    }
}

impl ConcreteFactoryB {
    /// Build this factory's family X product.
    pub fn create_product_x(&self) -> (p: ProductXEnum)
        ensures
            p is ConcreteProductX2,
            p@ == "FactoryB"@ + " ProductX"@,
    {
        ProductXEnum::ConcreteProductX2(ConcreteProductX2::new("FactoryB".to_owned()))
    }

    /// Build this factory's family Y product.
    pub fn create_product_y(&self) -> (p: ProductYEnum)
        ensures
            p is ConcreteProductY2,
            p@ == "FactoryB"@ + " ProductY"@,
    {
        ProductYEnum::ConcreteProductY2(ConcreteProductY2::new("FactoryB".to_owned()))
    }
}

/// A factory: exactly one of the two concrete factories.
pub enum FactoryEnum {
    ConcreteFactoryA(ConcreteFactoryA),
    ConcreteFactoryB(ConcreteFactoryB),
}

/// The family X variant that factory identity `id` must produce: A pairs
/// with the first variant, B with the second.
pub open spec fn pairs_with_x(id: FactoryID, p: ProductXEnum) -> bool {
    match id {
        FactoryID::A => p is ConcreteProductX1,
        FactoryID::B => p is ConcreteProductX2,
    }
}

/// The family Y variant that factory identity `id` must produce: A pairs
/// with the first variant, B with the second.
pub open spec fn pairs_with_y(id: FactoryID, p: ProductYEnum) -> bool {
    match id {
        FactoryID::A => p is ConcreteProductY1,
        FactoryID::B => p is ConcreteProductY2,
    }
}

/// The identity of a factory value.
pub open spec fn factory_id_of(f: FactoryEnum) -> FactoryID {
    match f {
        FactoryEnum::ConcreteFactoryA(_) => FactoryID::A,
        FactoryEnum::ConcreteFactoryB(_) => FactoryID::B,
    }
}

impl FactoryEnum {
    /// Build a family X product; its concrete variant is paired with this
    /// factory's identity, and its label ends in the family X suffix.
    pub fn create_product_x(&self) -> (p: ProductXEnum)
        ensures
            pairs_with_x(factory_id_of(*self), p),
            p@ == "FactoryB"@ + " ProductX"@,
    {
        match self {
            FactoryEnum::ConcreteFactoryA(f) => f.create_product_x(),
            FactoryEnum::ConcreteFactoryB(f) => f.create_product_x(),
        }
    }

    /// Build a family Y product; its concrete variant is paired with this
    /// factory's identity, and its label ends in the family Y suffix.
    pub fn create_product_y(&self) -> (p: ProductYEnum)
        ensures
            pairs_with_y(factory_id_of(*self), p),
            p@ == "FactoryB"@ + " ProductY"@,
    {
        match self {
            FactoryEnum::ConcreteFactoryA(f) => f.create_product_y(),
            FactoryEnum::ConcreteFactoryB(f) => f.create_product_y(),
        }
    }
}

/// The factory of the given identity.
pub fn create_factory(id: FactoryID) -> (f: FactoryEnum)
    ensures
        factory_id_of(f) == id,
{
    match id {
        FactoryID::A => FactoryEnum::ConcreteFactoryA(ConcreteFactoryA {  }),
        FactoryID::B => FactoryEnum::ConcreteFactoryB(ConcreteFactoryB {  }),
    }
}

/// `t` is a suffix of `s`.
pub open spec fn ends_with(s: Seq<char>, t: Seq<char>) -> bool {
    t.len() <= s.len() && s.subrange(s.len() - t.len(), s.len() as int) == t
}

/// Law: whatever context a product constructor is given, the label it
/// builds ends in the literal family suffix.
pub proof fn lemma_label_ends_with_suffix(m: Seq<char>)
    ensures
        ends_with(m + " ProductX"@, " ProductX"@),
        ends_with(m + " ProductY"@, " ProductY"@),
{
    let sx = " ProductX"@;
    let sy = " ProductY"@;
    assert((m + sx).subrange((m + sx).len() - sx.len(), (m + sx).len() as int) =~= sx);
    assert((m + sy).subrange((m + sy).len() - sy.len(), (m + sy).len() as int) =~= sy);
}

} // verus!
