use num_traits::{Float, One, Zero};
use struct_extractors::extract_number;
use struct_extractors::expand::{expand_number, ExpandError};
use struct_extractors::number::{check_number, NumberArg, NumberError};
use struct_extractors::syntax::{Data, DeriveItem, Field, Fields, GenericParam, Generics, PathArg};

fn float_metric_input() -> DeriveItem {
    DeriveItem {
        attrs: vec!["#[derive(Clone, Copy, Default)]".to_string()],
        vis: "pub".to_string(),
        ident: "FloatMetric".to_string(),
        generics: Generics {
            params: vec![GenericParam { name: "N".to_string(), text: "N".to_string() }],
            impl_generics: "<N>".to_string(),
            ty_generics: "<N>".to_string(),
            where_predicates: vec!["N: Float".to_string()],
        },
        data: Data::Struct(Fields::Named(vec![
            Field { attrs: vec![], vis: "pub".to_string(), ident: Some("value".to_string()), ty: "N".to_string() },
            Field { attrs: vec![], vis: "pub".to_string(), ident: Some("tag".to_string()), ty: "u16".to_string() },
        ])),
    }
}

fn field_arg(name: &str) -> Vec<NumberArg> {
    vec![NumberArg::Path(PathArg { ident: Some(name.to_string()) })]
}

// The struct of the tests below as the expansion re-emits it, and the impls
// that it generates for it.
#[derive(Clone, Copy, Default)]
pub struct FloatMetric<N>
where
    N: Float,
{
    pub value: N,
    pub tag: u16,
}

impl<N> ::std::ops::Neg for FloatMetric<N> where N: Float,  {
    type Output = Self;
    fn neg(self) -> Self {
        Self { value: -self.value, ..self }
    }
}
impl<N> ::std::ops::Add for FloatMetric<N> where N: Float, N: ::std::ops::Add<Output = N> {
    type Output = Self;
    fn add(self, other: Self) -> Self {
        Self { value: self.value + other.value, ..self }
    }
}
impl<N> ::std::ops::Sub for FloatMetric<N> where N: Float, N: ::std::ops::Sub<Output = N> {
    type Output = Self;
    fn sub(self, other: Self) -> Self {
        Self { value: self.value - other.value, ..self }
    }
}
impl<N> ::std::ops::Mul for FloatMetric<N> where N: Float, N: ::std::ops::Mul<Output = N> {
    type Output = Self;
    fn mul(self, other: Self) -> Self {
        Self { value: self.value * other.value, ..self }
    }
}
impl<N> ::std::ops::Div for FloatMetric<N> where N: Float, N: ::std::ops::Div<Output = N> {
    type Output = Self;
    fn div(self, other: Self) -> Self {
        Self { value: self.value / other.value, ..self }
    }
}
impl<N> ::std::ops::Mul<N> for FloatMetric<N> where N: Float, N: ::std::ops::Mul<Output = N> {
    type Output = Self;
    fn mul(self, other: N) -> Self {
        Self { value: self.value * other, ..self }
    }
}
impl<N> ::std::ops::Div<N> for FloatMetric<N> where N: Float, N: ::std::ops::Div<Output = N> {
    type Output = Self;
    fn div(self, other: N) -> Self {
        Self { value: self.value / other, ..self }
    }
}
impl<N> ::std::ops::AddAssign for FloatMetric<N> where N: Float, N: ::std::ops::AddAssign {
    fn add_assign(&mut self, other: Self) {
        self.value += other.value;
    }
}
impl<N> ::std::ops::SubAssign for FloatMetric<N> where N: Float, N: ::std::ops::SubAssign {
    fn sub_assign(&mut self, other: Self) {
        self.value -= other.value;
    }
}
impl<N> ::std::ops::MulAssign for FloatMetric<N> where N: Float, N: ::std::ops::MulAssign {
    fn mul_assign(&mut self, other: Self) {
        self.value *= other.value;
    }
}
impl<N> ::std::ops::MulAssign<N> for FloatMetric<N> where N: Float, N: ::std::ops::MulAssign {
    fn mul_assign(&mut self, other: N) {
        self.value *= other;
    }
}
impl<N> ::std::ops::DivAssign for FloatMetric<N> where N: Float, N: ::std::ops::DivAssign {
    fn div_assign(&mut self, other: Self) {
        self.value /= other.value;
    }
}
impl<N> ::std::ops::DivAssign<N> for FloatMetric<N> where N: Float, N: ::std::ops::DivAssign {
    fn div_assign(&mut self, other: N) {
        self.value /= other;
    }
}
impl<N> ::std::cmp::PartialEq for FloatMetric<N> where N: Float, N: ::std::cmp::PartialEq {
    fn eq(&self, other: &Self) -> bool {
        self.value == other.value
    }
}
impl<N> ::std::cmp::PartialOrd for FloatMetric<N> where N: Float, N: ::std::cmp::PartialOrd {
    fn partial_cmp(&self, other: &Self) -> Option<::std::cmp::Ordering> {
        self.value.partial_cmp(&other.value)
    }
}
impl<N> ::std::iter::Sum for FloatMetric<N> where N: Float, N: ::std::iter::Sum, FloatMetric<N>: ::std::default::Default {
    fn sum<I: Iterator<Item = Self>>(iter: I) -> Self {
        let total = iter.map(|x| x.value).sum();
        Self { value: total, ..Default::default() }
    }
}
impl<N> ::std::iter::Product for FloatMetric<N> where N: Float, N: ::std::iter::Product, FloatMetric<N>: ::std::default::Default {
    fn product<I: Iterator<Item = Self>>(iter: I) -> Self {
        let total = iter.map(|x| x.value).product();
        Self { value: total, ..Default::default() }
    }
}
impl<N> ::num_traits::Zero for FloatMetric<N> where N: Float, N: ::num_traits::Zero, FloatMetric<N>: ::std::default::Default {
    fn zero() -> Self {
        Self { value: <N as ::num_traits::Zero>::zero(), ..Default::default() }
    }
    fn is_zero(&self) -> bool {
        ::num_traits::Zero::is_zero(&self.value)
    }
}
impl<N> ::num_traits::One for FloatMetric<N> where N: Float, N: ::num_traits::One, FloatMetric<N>: ::std::default::Default {
    fn one() -> Self {
        Self { value: <N as ::num_traits::One>::one(), ..Default::default() }
    }
}

const FLOAT_METRIC_IMPLS: &str =
    "\nimpl<N> ::std::ops::Neg for FloatMetric<N> where N: Float,  {\n    type Output = Self;\n    fn neg(self) -> Self {\n        Self { value: -self.value, ..self }\n    }\n}\
\nimpl<N> ::std::ops::Add for FloatMetric<N> where N: Float, N: ::std::ops::Add<Output = N> {\n    type Output = Self;\n    fn add(self, other: Self) -> Self {\n        Self { value: self.value + other.value, ..self }\n    }\n}\
\nimpl<N> ::std::ops::Sub for FloatMetric<N> where N: Float, N: ::std::ops::Sub<Output = N> {\n    type Output = Self;\n    fn sub(self, other: Self) -> Self {\n        Self { value: self.value - other.value, ..self }\n    }\n}\
\nimpl<N> ::std::ops::Mul for FloatMetric<N> where N: Float, N: ::std::ops::Mul<Output = N> {\n    type Output = Self;\n    fn mul(self, other: Self) -> Self {\n        Self { value: self.value * other.value, ..self }\n    }\n}\
\nimpl<N> ::std::ops::Div for FloatMetric<N> where N: Float, N: ::std::ops::Div<Output = N> {\n    type Output = Self;\n    fn div(self, other: Self) -> Self {\n        Self { value: self.value / other.value, ..self }\n    }\n}\
\nimpl<N> ::std::ops::Mul<N> for FloatMetric<N> where N: Float, N: ::std::ops::Mul<Output = N> {\n    type Output = Self;\n    fn mul(self, other: N) -> Self {\n        Self { value: self.value * other, ..self }\n    }\n}\
\nimpl<N> ::std::ops::Div<N> for FloatMetric<N> where N: Float, N: ::std::ops::Div<Output = N> {\n    type Output = Self;\n    fn div(self, other: N) -> Self {\n        Self { value: self.value / other, ..self }\n    }\n}\
\nimpl<N> ::std::ops::AddAssign for FloatMetric<N> where N: Float, N: ::std::ops::AddAssign {\n    fn add_assign(&mut self, other: Self) {\n        self.value += other.value;\n    }\n}\
\nimpl<N> ::std::ops::SubAssign for FloatMetric<N> where N: Float, N: ::std::ops::SubAssign {\n    fn sub_assign(&mut self, other: Self) {\n        self.value -= other.value;\n    }\n}\
\nimpl<N> ::std::ops::MulAssign for FloatMetric<N> where N: Float, N: ::std::ops::MulAssign {\n    fn mul_assign(&mut self, other: Self) {\n        self.value *= other.value;\n    }\n}\
\nimpl<N> ::std::ops::MulAssign<N> for FloatMetric<N> where N: Float, N: ::std::ops::MulAssign {\n    fn mul_assign(&mut self, other: N) {\n        self.value *= other;\n    }\n}\
\nimpl<N> ::std::ops::DivAssign for FloatMetric<N> where N: Float, N: ::std::ops::DivAssign {\n    fn div_assign(&mut self, other: Self) {\n        self.value /= other.value;\n    }\n}\
\nimpl<N> ::std::ops::DivAssign<N> for FloatMetric<N> where N: Float, N: ::std::ops::DivAssign {\n    fn div_assign(&mut self, other: N) {\n        self.value /= other;\n    }\n}\
\nimpl<N> ::std::cmp::PartialEq for FloatMetric<N> where N: Float, N: ::std::cmp::PartialEq {\n    fn eq(&self, other: &Self) -> bool {\n        self.value == other.value\n    }\n}\
\nimpl<N> ::std::cmp::PartialOrd for FloatMetric<N> where N: Float, N: ::std::cmp::PartialOrd {\n    fn partial_cmp(&self, other: &Self) -> Option<::std::cmp::Ordering> {\n        self.value.partial_cmp(&other.value)\n    }\n}\
\nimpl<N> ::std::iter::Sum for FloatMetric<N> where N: Float, N: ::std::iter::Sum, FloatMetric<N>: ::std::default::Default {\n    fn sum<I: Iterator<Item = Self>>(iter: I) -> Self {\n        let total = iter.map(|x| x.value).sum();\n        Self { value: total, ..Default::default() }\n    }\n}\
\nimpl<N> ::std::iter::Product for FloatMetric<N> where N: Float, N: ::std::iter::Product, FloatMetric<N>: ::std::default::Default {\n    fn product<I: Iterator<Item = Self>>(iter: I) -> Self {\n        let total = iter.map(|x| x.value).product();\n        Self { value: total, ..Default::default() }\n    }\n}\
\nimpl<N> ::num_traits::Zero for FloatMetric<N> where N: Float, N: ::num_traits::Zero, FloatMetric<N>: ::std::default::Default {\n    fn zero() -> Self {\n        Self { value: <N as ::num_traits::Zero>::zero(), ..Default::default() }\n    }\n    fn is_zero(&self) -> bool {\n        ::num_traits::Zero::is_zero(&self.value)\n    }\n}\
\nimpl<N> ::num_traits::One for FloatMetric<N> where N: Float, N: ::num_traits::One, FloatMetric<N>: ::std::default::Default {\n    fn one() -> Self {\n        Self { value: <N as ::num_traits::One>::one(), ..Default::default() }\n    }\n}";

fn check_expansion() {
    let expansion = extract_number(&field_arg("value"), float_metric_input());
    assert_eq!(expansion.generated, FLOAT_METRIC_IMPLS);
    assert_eq!(expansion.item, float_metric_input());
    assert_eq!(
        expansion.source(),
        format!(
            "#[derive(Clone, Copy, Default)] pub struct FloatMetric<N, > where N: Float,  {{ pub value: N, pub tag: u16, }}{}",
            FLOAT_METRIC_IMPLS
        )
    );
}

impl<N> FloatMetric<N>
where
    N: Float,
{
    fn new(value: N) -> Self {
        Self { value, tag: 7 }
    }
}

#[test]
fn arithmetic_uses_selected_field() {
    check_expansion();
    let a = FloatMetric::<f64>::new(10.0);
    let b = FloatMetric::<f64>::new(2.0);

    assert_eq!((a + b).value, 12.0);
    assert_eq!((a - b).value, 8.0);
    assert_eq!((a * b).value, 20.0);
    assert_eq!((a / b).value, 5.0);
}

#[test]
fn scalar_and_assign_ops_use_actual_field_type() {
    check_expansion();
    let mut value = FloatMetric::<f64>::new(10.0);

    assert_eq!((value * 3.0).value, 30.0);
    assert_eq!((value / 2.0).value, 5.0);

    value += FloatMetric::new(2.0);
    value -= FloatMetric::new(1.0);
    value *= 3.0;
    value /= 2.0;

    assert_eq!(value.value, 16.5);
}

#[test]
fn comparison_sum_product_zero_and_one_work() {
    check_expansion();
    let a = FloatMetric::<f64>::new(3.0);
    let b = FloatMetric::<f64>::new(7.0);
    assert!(a < b);

    let values = [
        FloatMetric::<f64>::new(2.0),
        FloatMetric::<f64>::new(3.0),
        FloatMetric::<f64>::new(5.0),
    ];

    assert_eq!(values.iter().copied().sum::<FloatMetric<f64>>().value, 10.0);
    assert_eq!(values.iter().copied().product::<FloatMetric<f64>>().value, 30.0);
    assert_eq!(FloatMetric::<f64>::zero().value, 0.0);
    assert_eq!(FloatMetric::<f64>::one().value, 1.0);
}

#[test]
fn untouched_fields_follow_struct_update_semantics() {
    check_expansion();
    let value = FloatMetric::<f64>::new(2.0);
    assert_eq!((-value).tag, 7);
}

#[test]
fn refused_number_arguments() {
    let e = check_number(&vec![], &float_metric_input()).unwrap_err();
    assert_eq!(e, NumberError::ArgumentCount);
    assert_eq!(e.message(), "expected exactly one argument: #[extract_number(field)]");

    let two = vec![NumberArg::Path(PathArg { ident: Some("value".to_string()) }), NumberArg::Other];
    assert_eq!(check_number(&two, &float_metric_input()).unwrap_err(), NumberError::ArgumentCount);

    let e = check_number(&vec![NumberArg::Other], &float_metric_input()).unwrap_err();
    assert_eq!(e, NumberError::ExpectedIdentifier);
    assert_eq!(e.message(), "expected identifier in #[extract_number(field)]");

    let path = vec![NumberArg::Path(PathArg { ident: None })];
    assert_eq!(check_number(&path, &float_metric_input()).unwrap_err(), NumberError::ExpectedIdentifier);

    let e = check_number(&field_arg("missing"), &float_metric_input()).unwrap_err();
    assert_eq!(e, NumberError::NoSuchField("missing".to_string()));
    assert_eq!(e.message(), "no named field `missing` in #[extract_number(field)]");
}

#[test]
fn the_selected_field_decides_the_type() {
    let expansion = extract_number(&field_arg("tag"), float_metric_input());
    assert!(expansion.generated.contains(
        "\nimpl<N> ::std::ops::Mul<u16> for FloatMetric<N> where N: Float, u16: ::std::ops::Mul<Output = u16> {"
    ));
    assert!(expansion.generated.contains("Self { tag: -self.tag, ..self }"));
}

#[test]
fn number_from_the_item_text() {
    let input = "#[derive(Clone, Copy, Default)] pub struct FloatMetric<N> where N: Float { pub value: N, pub tag: u16 }";
    let out = expand_number("value", input).unwrap();
    assert!(out.contains("impl< N > ::std::ops::Add for FloatMetric< N > where N : Float, N: ::std::ops::Add<Output = N> {"), "{}", out);
    assert_eq!(expand_number("value,", input).map(|o| o.len()), Ok(out.len()));
    assert_eq!(expand_number("", input), Err(ExpandError::Refused(NumberError::ArgumentCount)));
    assert_eq!(expand_number("a::b", input), Err(ExpandError::Refused(NumberError::ExpectedIdentifier)));
    assert_eq!(expand_number("1", input), Err(ExpandError::Refused(NumberError::ExpectedIdentifier)));
    assert_eq!(expand_number("value", "not an item"), Err(ExpandError::Parse));
    assert_eq!(expand_number("+", input), Err(ExpandError::Parse));
    assert_eq!(
        expand_number("missing", input),
        Err(ExpandError::Refused(NumberError::NoSuchField("missing".to_string())))
    );
}
