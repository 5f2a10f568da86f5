#![allow(unused_mut, unused_variables, unused_assignments, dead_code, unused_imports, non_camel_case_types)]

use boulder::persian_rug::Owner;
use boulder::persian_rug::Proxy;
use boulder::persian_rug::Table;
use boulder::Buildable;
use boulder::BuildableWithPersianRug;
use boulder::Builder;
use boulder::BuilderWithPersianRug;
use boulder::Generatable;
use boulder::GeneratableWithPersianRug;
use boulder::Generator;
use boulder::GeneratorWithPersianRug;
use std::cell::Cell;
use std::cell::RefCell;
use std::rc::Rc;
use std::sync::Arc;
use std::sync::Mutex;

#[derive(Default)]
struct Census {
    counted: Table<Counted<Census>>,
}

#[derive(Default)]
struct Shelf {
    items: Table<Item>,
    holders: Table<Holder>,
}

impl Owner<Counted<Census>> for Census {
    fn add(&mut self, value: Counted<Census>) -> Proxy<Counted<Census>> {
        self.counted.add(value)
    }
    fn get(&self, p: &Proxy<Counted<Census>>) -> &Counted<Census> {
        self.counted.get(p)
    }
    fn get_proxies(&self) -> Vec<Proxy<Counted<Census>>> {
        self.counted.get_proxies()
    }
}

impl Owner<Item> for Shelf {
    fn add(&mut self, value: Item) -> Proxy<Item> {
        self.items.add(value)
    }
    fn get(&self, p: &Proxy<Item>) -> &Item {
        self.items.get(p)
    }
    fn get_proxies(&self) -> Vec<Proxy<Item>> {
        self.items.get_proxies()
    }
}

impl Owner<Holder> for Shelf {
    fn add(&mut self, value: Holder) -> Proxy<Holder> {
        self.holders.add(value)
    }
    fn get(&self, p: &Proxy<Holder>) -> &Holder {
        self.holders.get(p)
    }
    fn get_proxies(&self) -> Vec<Proxy<Holder>> {
        self.holders.get_proxies()
    }
}

#[derive(Debug, PartialEq)]
pub struct Plain  {
    a: i32,
    b: String,
}

const _: () = {
pub struct Builder<BoulderTypeMarkerParam >  {
_boulder_type_marker: ::core::marker::PhantomData<BoulderTypeMarkerParam>,
a: i32,
b: String,
}

impl<BoulderTypeMarkerParam > Builder<BoulderTypeMarkerParam >  {
pub fn new() -> Self {
Self {
_boulder_type_marker: Default::default(),
a: Default::default(),
b: Default::default(),
}
}

fn change_type<BoulderFunctionTypeParam>(self) -> Builder<BoulderFunctionTypeParam > {
Builder {
_boulder_type_marker: Default::default(),
a: self.a,
b: self.b,
}
}

pub fn a<S>(mut self, value: S) -> Self where S: Into<i32> { self.a = value.into(); self }
pub fn b<S>(mut self, value: S) -> Self where S: Into<String> { self.b = value.into(); self }
}

impl  ::boulder::builder::BoulderBase for Plain   {
type Base = Plain ;
}

impl  ::boulder::builder::MiniBuildable<Plain > for Plain   {
type Builder = Builder<Plain  >;
fn mini_builder() -> Self::Builder {
Builder::new()
}
}

impl  ::boulder::Builder for Builder<Plain  >  {
type Result = Plain ;
fn build(self) -> Plain  {
Plain {
a: self.a,
b: self.b,
}
}
}

impl<BoulderExtraGenericParam > ::boulder::builder::MiniBuildable<Plain > for Option<BoulderExtraGenericParam>
where
BoulderExtraGenericParam: ::boulder::builder::MiniBuildable<Plain >,
Builder<BoulderExtraGenericParam >: ::boulder::Builder<Result = BoulderExtraGenericParam>,

{
type Builder = Builder<Option<BoulderExtraGenericParam> >;
fn mini_builder() -> Self::Builder {
Builder::new()
}
}

impl<BoulderExtraGenericParam > ::boulder::Builder for Builder<Option<BoulderExtraGenericParam> >
where
Builder<BoulderExtraGenericParam >: ::boulder::Builder<Result = BoulderExtraGenericParam>,

{
type Result = Option<BoulderExtraGenericParam>;
fn build(self) -> Option<BoulderExtraGenericParam> {
Some(<Builder<BoulderExtraGenericParam > as ::boulder::Builder>::build(self.change_type()))
}
}

impl<BoulderExtraGenericParam > ::boulder::builder::MiniBuildable<Plain > for ::std::rc::Rc<BoulderExtraGenericParam>
where
BoulderExtraGenericParam: ::boulder::builder::MiniBuildable<Plain >,
Builder<BoulderExtraGenericParam >: ::boulder::Builder<Result = BoulderExtraGenericParam>,

{
type Builder = Builder<::std::rc::Rc<BoulderExtraGenericParam> >;
fn mini_builder() -> Self::Builder {
Builder::new()
}
}

impl<BoulderExtraGenericParam > ::boulder::Builder for Builder<::std::rc::Rc<BoulderExtraGenericParam> >
where
Builder<BoulderExtraGenericParam >: ::boulder::Builder<Result = BoulderExtraGenericParam>,

{
type Result = ::std::rc::Rc<BoulderExtraGenericParam>;
fn build(self) -> ::std::rc::Rc<BoulderExtraGenericParam> {
::std::rc::Rc::new(<Builder<BoulderExtraGenericParam > as ::boulder::Builder>::build(self.change_type()))
}
}

impl<BoulderExtraGenericParam > ::boulder::builder::MiniBuildable<Plain > for ::std::sync::Arc<BoulderExtraGenericParam>
where
BoulderExtraGenericParam: ::boulder::builder::MiniBuildable<Plain >,
Builder<BoulderExtraGenericParam >: ::boulder::Builder<Result = BoulderExtraGenericParam>,

{
type Builder = Builder<::std::sync::Arc<BoulderExtraGenericParam> >;
fn mini_builder() -> Self::Builder {
Builder::new()
}
}

impl<BoulderExtraGenericParam > ::boulder::Builder for Builder<::std::sync::Arc<BoulderExtraGenericParam> >
where
Builder<BoulderExtraGenericParam >: ::boulder::Builder<Result = BoulderExtraGenericParam>,

{
type Result = ::std::sync::Arc<BoulderExtraGenericParam>;
fn build(self) -> ::std::sync::Arc<BoulderExtraGenericParam> {
::std::sync::Arc::new(<Builder<BoulderExtraGenericParam > as ::boulder::Builder>::build(self.change_type()))
}
}

impl<BoulderExtraGenericParam > ::boulder::builder::MiniBuildable<Plain > for ::std::cell::Cell<BoulderExtraGenericParam>
where
BoulderExtraGenericParam: ::boulder::builder::MiniBuildable<Plain >,
Builder<BoulderExtraGenericParam >: ::boulder::Builder<Result = BoulderExtraGenericParam>,

{
type Builder = Builder<::std::cell::Cell<BoulderExtraGenericParam> >;
fn mini_builder() -> Self::Builder {
Builder::new()
}
}

impl<BoulderExtraGenericParam > ::boulder::Builder for Builder<::std::cell::Cell<BoulderExtraGenericParam> >
where
Builder<BoulderExtraGenericParam >: ::boulder::Builder<Result = BoulderExtraGenericParam>,

{
type Result = ::std::cell::Cell<BoulderExtraGenericParam>;
fn build(self) -> ::std::cell::Cell<BoulderExtraGenericParam> {
::std::cell::Cell::new(<Builder<BoulderExtraGenericParam > as ::boulder::Builder>::build(self.change_type()))
}
}

impl<BoulderExtraGenericParam > ::boulder::builder::MiniBuildable<Plain > for ::std::cell::RefCell<BoulderExtraGenericParam>
where
BoulderExtraGenericParam: ::boulder::builder::MiniBuildable<Plain >,
Builder<BoulderExtraGenericParam >: ::boulder::Builder<Result = BoulderExtraGenericParam>,

{
type Builder = Builder<::std::cell::RefCell<BoulderExtraGenericParam> >;
fn mini_builder() -> Self::Builder {
Builder::new()
}
}

impl<BoulderExtraGenericParam > ::boulder::Builder for Builder<::std::cell::RefCell<BoulderExtraGenericParam> >
where
Builder<BoulderExtraGenericParam >: ::boulder::Builder<Result = BoulderExtraGenericParam>,

{
type Result = ::std::cell::RefCell<BoulderExtraGenericParam>;
fn build(self) -> ::std::cell::RefCell<BoulderExtraGenericParam> {
::std::cell::RefCell::new(<Builder<BoulderExtraGenericParam > as ::boulder::Builder>::build(self.change_type()))
}
}

impl<BoulderExtraGenericParam > ::boulder::builder::MiniBuildable<Plain > for ::std::sync::Mutex<BoulderExtraGenericParam>
where
BoulderExtraGenericParam: ::boulder::builder::MiniBuildable<Plain >,
Builder<BoulderExtraGenericParam >: ::boulder::Builder<Result = BoulderExtraGenericParam>,

{
type Builder = Builder<::std::sync::Mutex<BoulderExtraGenericParam> >;
fn mini_builder() -> Self::Builder {
Builder::new()
}
}

impl<BoulderExtraGenericParam > ::boulder::Builder for Builder<::std::sync::Mutex<BoulderExtraGenericParam> >
where
Builder<BoulderExtraGenericParam >: ::boulder::Builder<Result = BoulderExtraGenericParam>,

{
type Result = ::std::sync::Mutex<BoulderExtraGenericParam>;
fn build(self) -> ::std::sync::Mutex<BoulderExtraGenericParam> {
::std::sync::Mutex::new(<Builder<BoulderExtraGenericParam > as ::boulder::Builder>::build(self.change_type()))
}
}

};

const _: () = {
pub struct Generator<BoulderTypeMarkerParam >  {
_boulder_type_marker: ::core::marker::PhantomData<BoulderTypeMarkerParam>,
a: Box<dyn ::boulder::Generator<Output = i32>>,
b: Box<dyn ::boulder::Generator<Output = String>>,
}

pub trait NestedGenerate   {
type Output;
fn nested_generate<BoulderFunctionParam>(gen: &mut Generator<BoulderFunctionParam >) -> Self::Output;
}

impl<BoulderTypeMarkerParam > Generator<BoulderTypeMarkerParam >  {
pub fn new() -> Self {
Self {
_boulder_type_marker: Default::default(),
a: Box::new(|| Default::default()),
b: Box::new(|| Default::default()),
}
}

pub fn a<V>(mut self, generator: V) -> Self where V: 'static + ::boulder::Generator<Output = i32> { self.a = Box::new(generator); self }
pub fn b<V>(mut self, generator: V) -> Self where V: 'static + ::boulder::Generator<Output = String> { self.b = Box::new(generator); self }
}

impl<BoulderTypeMarkerParam > ::boulder::Generator for Generator<BoulderTypeMarkerParam >
where
Self: NestedGenerate ,
BoulderTypeMarkerParam: 'static,

{
type Output = <Self as NestedGenerate >::Output;
fn generate(&mut self) -> Self::Output {
<Self as NestedGenerate >::nested_generate(self)
}
}

impl  ::boulder::generator::BoulderBase for Plain   {
type Base = Plain ;
}

impl  ::boulder::generator::MiniGeneratable<Plain > for Plain   {
type Generator = Generator<Plain  >;
fn mini_generator() -> Self::Generator {
Generator::new()
}
}

impl  NestedGenerate  for Generator<Plain  >  {
type Output = Plain ;
fn nested_generate<BoulderFunctionParam>(gen: &mut Generator<BoulderFunctionParam >) -> Self::Output {
Plain {
a: gen.a.generate(),
b: gen.b.generate(),
}
}
}

impl<BoulderExtraGenericParam > ::boulder::generator::MiniGeneratable<Plain > for Option<BoulderExtraGenericParam>
where
BoulderExtraGenericParam: ::boulder::generator::MiniGeneratable<Plain >,
Generator<Option<BoulderExtraGenericParam> >: ::boulder::Generator<Output = Option<BoulderExtraGenericParam>>,

{
type Generator = Generator<Option<BoulderExtraGenericParam> >;
fn mini_generator() -> Self::Generator {
Generator::new()
}
}

impl<BoulderExtraGenericParam > NestedGenerate  for Generator<Option<BoulderExtraGenericParam> >
where
Generator<BoulderExtraGenericParam >: NestedGenerate ,

{
type Output = Option<<Generator<BoulderExtraGenericParam > as NestedGenerate >::Output>;
fn nested_generate<BoulderFunctionParam>(gen: &mut Generator<BoulderFunctionParam >) -> Self::Output {
Some(Generator::<BoulderExtraGenericParam >::nested_generate(gen))
}
}

impl<BoulderExtraGenericParam > ::boulder::generator::MiniGeneratable<Plain > for ::std::rc::Rc<BoulderExtraGenericParam>
where
BoulderExtraGenericParam: ::boulder::generator::MiniGeneratable<Plain >,
Generator<::std::rc::Rc<BoulderExtraGenericParam> >: ::boulder::Generator<Output = ::std::rc::Rc<BoulderExtraGenericParam>>,

{
type Generator = Generator<::std::rc::Rc<BoulderExtraGenericParam> >;
fn mini_generator() -> Self::Generator {
Generator::new()
}
}

impl<BoulderExtraGenericParam > NestedGenerate  for Generator<::std::rc::Rc<BoulderExtraGenericParam> >
where
Generator<BoulderExtraGenericParam >: NestedGenerate ,

{
type Output = ::std::rc::Rc<<Generator<BoulderExtraGenericParam > as NestedGenerate >::Output>;
fn nested_generate<BoulderFunctionParam>(gen: &mut Generator<BoulderFunctionParam >) -> Self::Output {
::std::rc::Rc::new(Generator::<BoulderExtraGenericParam >::nested_generate(gen))
}
}

impl<BoulderExtraGenericParam > ::boulder::generator::MiniGeneratable<Plain > for ::std::sync::Arc<BoulderExtraGenericParam>
where
BoulderExtraGenericParam: ::boulder::generator::MiniGeneratable<Plain >,
Generator<::std::sync::Arc<BoulderExtraGenericParam> >: ::boulder::Generator<Output = ::std::sync::Arc<BoulderExtraGenericParam>>,

{
type Generator = Generator<::std::sync::Arc<BoulderExtraGenericParam> >;
fn mini_generator() -> Self::Generator {
Generator::new()
}
}

impl<BoulderExtraGenericParam > NestedGenerate  for Generator<::std::sync::Arc<BoulderExtraGenericParam> >
where
Generator<BoulderExtraGenericParam >: NestedGenerate ,

{
type Output = ::std::sync::Arc<<Generator<BoulderExtraGenericParam > as NestedGenerate >::Output>;
fn nested_generate<BoulderFunctionParam>(gen: &mut Generator<BoulderFunctionParam >) -> Self::Output {
::std::sync::Arc::new(Generator::<BoulderExtraGenericParam >::nested_generate(gen))
}
}

impl<BoulderExtraGenericParam > ::boulder::generator::MiniGeneratable<Plain > for ::std::cell::Cell<BoulderExtraGenericParam>
where
BoulderExtraGenericParam: ::boulder::generator::MiniGeneratable<Plain >,
Generator<::std::cell::Cell<BoulderExtraGenericParam> >: ::boulder::Generator<Output = ::std::cell::Cell<BoulderExtraGenericParam>>,

{
type Generator = Generator<::std::cell::Cell<BoulderExtraGenericParam> >;
fn mini_generator() -> Self::Generator {
Generator::new()
}
}

impl<BoulderExtraGenericParam > NestedGenerate  for Generator<::std::cell::Cell<BoulderExtraGenericParam> >
where
Generator<BoulderExtraGenericParam >: NestedGenerate ,

{
type Output = ::std::cell::Cell<<Generator<BoulderExtraGenericParam > as NestedGenerate >::Output>;
fn nested_generate<BoulderFunctionParam>(gen: &mut Generator<BoulderFunctionParam >) -> Self::Output {
::std::cell::Cell::new(Generator::<BoulderExtraGenericParam >::nested_generate(gen))
}
}

impl<BoulderExtraGenericParam > ::boulder::generator::MiniGeneratable<Plain > for ::std::cell::RefCell<BoulderExtraGenericParam>
where
BoulderExtraGenericParam: ::boulder::generator::MiniGeneratable<Plain >,
Generator<::std::cell::RefCell<BoulderExtraGenericParam> >: ::boulder::Generator<Output = ::std::cell::RefCell<BoulderExtraGenericParam>>,

{
type Generator = Generator<::std::cell::RefCell<BoulderExtraGenericParam> >;
fn mini_generator() -> Self::Generator {
Generator::new()
}
}

impl<BoulderExtraGenericParam > NestedGenerate  for Generator<::std::cell::RefCell<BoulderExtraGenericParam> >
where
Generator<BoulderExtraGenericParam >: NestedGenerate ,

{
type Output = ::std::cell::RefCell<<Generator<BoulderExtraGenericParam > as NestedGenerate >::Output>;
fn nested_generate<BoulderFunctionParam>(gen: &mut Generator<BoulderFunctionParam >) -> Self::Output {
::std::cell::RefCell::new(Generator::<BoulderExtraGenericParam >::nested_generate(gen))
}
}

impl<BoulderExtraGenericParam > ::boulder::generator::MiniGeneratable<Plain > for ::std::sync::Mutex<BoulderExtraGenericParam>
where
BoulderExtraGenericParam: ::boulder::generator::MiniGeneratable<Plain >,
Generator<::std::sync::Mutex<BoulderExtraGenericParam> >: ::boulder::Generator<Output = ::std::sync::Mutex<BoulderExtraGenericParam>>,

{
type Generator = Generator<::std::sync::Mutex<BoulderExtraGenericParam> >;
fn mini_generator() -> Self::Generator {
Generator::new()
}
}

impl<BoulderExtraGenericParam > NestedGenerate  for Generator<::std::sync::Mutex<BoulderExtraGenericParam> >
where
Generator<BoulderExtraGenericParam >: NestedGenerate ,

{
type Output = ::std::sync::Mutex<<Generator<BoulderExtraGenericParam > as NestedGenerate >::Output>;
fn nested_generate<BoulderFunctionParam>(gen: &mut Generator<BoulderFunctionParam >) -> Self::Output {
::std::sync::Mutex::new(Generator::<BoulderExtraGenericParam >::nested_generate(gen))
}
}


pub struct Values<BoulderExtraGenericParam>(::boulder::GeneratorIterator<BoulderExtraGenericParam>);

impl<BoulderExtraGenericParam> ::std::iter::Iterator for Values<BoulderExtraGenericParam>
where
BoulderExtraGenericParam: ::boulder::Generator,
{
type Item = <BoulderExtraGenericParam as ::boulder::Generator>::Output;
fn next(&mut self) -> Option<Self::Item> {
self.0.next()
}
}

pub struct ValuesMut<'boulder_reference_lifetime, BoulderExtraGenericParam>(::boulder::GeneratorMutIterator<'boulder_reference_lifetime, BoulderExtraGenericParam>);

impl<'boulder_reference_lifetime, BoulderExtraGenericParam> ::std::iter::Iterator for ValuesMut<'boulder_reference_lifetime, BoulderExtraGenericParam>
where
BoulderExtraGenericParam: ::boulder::Generator,
{
type Item = <BoulderExtraGenericParam as ::boulder::Generator>::Output;
fn next(&mut self) -> Option<Self::Item> {
self.0.next()
}
}

impl<BoulderExtraGenericParam > ::std::iter::IntoIterator for Generator<BoulderExtraGenericParam >
where
Generator<BoulderExtraGenericParam >: ::boulder::Generator<Output = BoulderExtraGenericParam>,

{
type Item = BoulderExtraGenericParam;
type IntoIter = Values<Self>;
fn into_iter(self) -> Self::IntoIter {
Values(::boulder::GeneratorIterator::new(self))
}
}

impl<'boulder_reference_lifetime, BoulderExtraGenericParam > ::std::iter::IntoIterator for &'boulder_reference_lifetime mut Generator<BoulderExtraGenericParam >
where
Generator<BoulderExtraGenericParam >: ::boulder::Generator<Output = BoulderExtraGenericParam>,

{
type Item = BoulderExtraGenericParam;
type IntoIter = ValuesMut<'boulder_reference_lifetime, Generator<BoulderExtraGenericParam >>;
fn into_iter(self) -> Self::IntoIter {
ValuesMut(::boulder::GeneratorMutIterator::new(self))
}
}
};

#[derive(Debug, PartialEq)]
pub struct Pair  {
    a: i32,
    b: String,
}

const _: () = {
pub struct Builder<BoulderTypeMarkerParam >  {
_boulder_type_marker: ::core::marker::PhantomData<BoulderTypeMarkerParam>,
a: i32,
b: String,
}

impl<BoulderTypeMarkerParam > Builder<BoulderTypeMarkerParam >  {
pub fn new() -> Self {
Self {
_boulder_type_marker: Default::default(),
a: (3).into(),
b: ("three").into(),
}
}

fn change_type<BoulderFunctionTypeParam>(self) -> Builder<BoulderFunctionTypeParam > {
Builder {
_boulder_type_marker: Default::default(),
a: self.a,
b: self.b,
}
}

pub fn a<S>(mut self, value: S) -> Self where S: Into<i32> { self.a = value.into(); self }
pub fn b<S>(mut self, value: S) -> Self where S: Into<String> { self.b = value.into(); self }
}

impl  ::boulder::builder::BoulderBase for Pair   {
type Base = Pair ;
}

impl  ::boulder::builder::MiniBuildable<Pair > for Pair   {
type Builder = Builder<Pair  >;
fn mini_builder() -> Self::Builder {
Builder::new()
}
}

impl  ::boulder::Builder for Builder<Pair  >  {
type Result = Pair ;
fn build(self) -> Pair  {
Pair {
a: self.a,
b: self.b,
}
}
}

impl<BoulderExtraGenericParam > ::boulder::builder::MiniBuildable<Pair > for Option<BoulderExtraGenericParam>
where
BoulderExtraGenericParam: ::boulder::builder::MiniBuildable<Pair >,
Builder<BoulderExtraGenericParam >: ::boulder::Builder<Result = BoulderExtraGenericParam>,

{
type Builder = Builder<Option<BoulderExtraGenericParam> >;
fn mini_builder() -> Self::Builder {
Builder::new()
}
}

impl<BoulderExtraGenericParam > ::boulder::Builder for Builder<Option<BoulderExtraGenericParam> >
where
Builder<BoulderExtraGenericParam >: ::boulder::Builder<Result = BoulderExtraGenericParam>,

{
type Result = Option<BoulderExtraGenericParam>;
fn build(self) -> Option<BoulderExtraGenericParam> {
Some(<Builder<BoulderExtraGenericParam > as ::boulder::Builder>::build(self.change_type()))
}
}

impl<BoulderExtraGenericParam > ::boulder::builder::MiniBuildable<Pair > for ::std::rc::Rc<BoulderExtraGenericParam>
where
BoulderExtraGenericParam: ::boulder::builder::MiniBuildable<Pair >,
Builder<BoulderExtraGenericParam >: ::boulder::Builder<Result = BoulderExtraGenericParam>,

{
type Builder = Builder<::std::rc::Rc<BoulderExtraGenericParam> >;
fn mini_builder() -> Self::Builder {
Builder::new()
}
}

impl<BoulderExtraGenericParam > ::boulder::Builder for Builder<::std::rc::Rc<BoulderExtraGenericParam> >
where
Builder<BoulderExtraGenericParam >: ::boulder::Builder<Result = BoulderExtraGenericParam>,

{
type Result = ::std::rc::Rc<BoulderExtraGenericParam>;
fn build(self) -> ::std::rc::Rc<BoulderExtraGenericParam> {
::std::rc::Rc::new(<Builder<BoulderExtraGenericParam > as ::boulder::Builder>::build(self.change_type()))
}
}

impl<BoulderExtraGenericParam > ::boulder::builder::MiniBuildable<Pair > for ::std::sync::Arc<BoulderExtraGenericParam>
where
BoulderExtraGenericParam: ::boulder::builder::MiniBuildable<Pair >,
Builder<BoulderExtraGenericParam >: ::boulder::Builder<Result = BoulderExtraGenericParam>,

{
type Builder = Builder<::std::sync::Arc<BoulderExtraGenericParam> >;
fn mini_builder() -> Self::Builder {
Builder::new()
}
}

impl<BoulderExtraGenericParam > ::boulder::Builder for Builder<::std::sync::Arc<BoulderExtraGenericParam> >
where
Builder<BoulderExtraGenericParam >: ::boulder::Builder<Result = BoulderExtraGenericParam>,

{
type Result = ::std::sync::Arc<BoulderExtraGenericParam>;
fn build(self) -> ::std::sync::Arc<BoulderExtraGenericParam> {
::std::sync::Arc::new(<Builder<BoulderExtraGenericParam > as ::boulder::Builder>::build(self.change_type()))
}
}

impl<BoulderExtraGenericParam > ::boulder::builder::MiniBuildable<Pair > for ::std::cell::Cell<BoulderExtraGenericParam>
where
BoulderExtraGenericParam: ::boulder::builder::MiniBuildable<Pair >,
Builder<BoulderExtraGenericParam >: ::boulder::Builder<Result = BoulderExtraGenericParam>,

{
type Builder = Builder<::std::cell::Cell<BoulderExtraGenericParam> >;
fn mini_builder() -> Self::Builder {
Builder::new()
}
}

impl<BoulderExtraGenericParam > ::boulder::Builder for Builder<::std::cell::Cell<BoulderExtraGenericParam> >
where
Builder<BoulderExtraGenericParam >: ::boulder::Builder<Result = BoulderExtraGenericParam>,

{
type Result = ::std::cell::Cell<BoulderExtraGenericParam>;
fn build(self) -> ::std::cell::Cell<BoulderExtraGenericParam> {
::std::cell::Cell::new(<Builder<BoulderExtraGenericParam > as ::boulder::Builder>::build(self.change_type()))
}
}

impl<BoulderExtraGenericParam > ::boulder::builder::MiniBuildable<Pair > for ::std::cell::RefCell<BoulderExtraGenericParam>
where
BoulderExtraGenericParam: ::boulder::builder::MiniBuildable<Pair >,
Builder<BoulderExtraGenericParam >: ::boulder::Builder<Result = BoulderExtraGenericParam>,

{
type Builder = Builder<::std::cell::RefCell<BoulderExtraGenericParam> >;
fn mini_builder() -> Self::Builder {
Builder::new()
}
}

impl<BoulderExtraGenericParam > ::boulder::Builder for Builder<::std::cell::RefCell<BoulderExtraGenericParam> >
where
Builder<BoulderExtraGenericParam >: ::boulder::Builder<Result = BoulderExtraGenericParam>,

{
type Result = ::std::cell::RefCell<BoulderExtraGenericParam>;
fn build(self) -> ::std::cell::RefCell<BoulderExtraGenericParam> {
::std::cell::RefCell::new(<Builder<BoulderExtraGenericParam > as ::boulder::Builder>::build(self.change_type()))
}
}

impl<BoulderExtraGenericParam > ::boulder::builder::MiniBuildable<Pair > for ::std::sync::Mutex<BoulderExtraGenericParam>
where
BoulderExtraGenericParam: ::boulder::builder::MiniBuildable<Pair >,
Builder<BoulderExtraGenericParam >: ::boulder::Builder<Result = BoulderExtraGenericParam>,

{
type Builder = Builder<::std::sync::Mutex<BoulderExtraGenericParam> >;
fn mini_builder() -> Self::Builder {
Builder::new()
}
}

impl<BoulderExtraGenericParam > ::boulder::Builder for Builder<::std::sync::Mutex<BoulderExtraGenericParam> >
where
Builder<BoulderExtraGenericParam >: ::boulder::Builder<Result = BoulderExtraGenericParam>,

{
type Result = ::std::sync::Mutex<BoulderExtraGenericParam>;
fn build(self) -> ::std::sync::Mutex<BoulderExtraGenericParam> {
::std::sync::Mutex::new(<Builder<BoulderExtraGenericParam > as ::boulder::Builder>::build(self.change_type()))
}
}

};

const _: () = {
pub struct Generator<BoulderTypeMarkerParam >  {
_boulder_type_marker: ::core::marker::PhantomData<BoulderTypeMarkerParam>,
a: Box<dyn ::boulder::Generator<Output = i32>>,
b: Box<dyn ::boulder::Generator<Output = String>>,
}

pub trait NestedGenerate   {
type Output;
fn nested_generate<BoulderFunctionParam>(gen: &mut Generator<BoulderFunctionParam >) -> Self::Output;
}

impl<BoulderTypeMarkerParam > Generator<BoulderTypeMarkerParam >  {
pub fn new() -> Self {
Self {
_boulder_type_marker: Default::default(),
a: Box::new(|| (3).into()),
b: Box::new(|| ("three").into()),
}
}

pub fn a<V>(mut self, generator: V) -> Self where V: 'static + ::boulder::Generator<Output = i32> { self.a = Box::new(generator); self }
pub fn b<V>(mut self, generator: V) -> Self where V: 'static + ::boulder::Generator<Output = String> { self.b = Box::new(generator); self }
}

impl<BoulderTypeMarkerParam > ::boulder::Generator for Generator<BoulderTypeMarkerParam >
where
Self: NestedGenerate ,
BoulderTypeMarkerParam: 'static,

{
type Output = <Self as NestedGenerate >::Output;
fn generate(&mut self) -> Self::Output {
<Self as NestedGenerate >::nested_generate(self)
}
}

impl  ::boulder::generator::BoulderBase for Pair   {
type Base = Pair ;
}

impl  ::boulder::generator::MiniGeneratable<Pair > for Pair   {
type Generator = Generator<Pair  >;
fn mini_generator() -> Self::Generator {
Generator::new()
}
}

impl  NestedGenerate  for Generator<Pair  >  {
type Output = Pair ;
fn nested_generate<BoulderFunctionParam>(gen: &mut Generator<BoulderFunctionParam >) -> Self::Output {
Pair {
a: gen.a.generate(),
b: gen.b.generate(),
}
}
}

impl<BoulderExtraGenericParam > ::boulder::generator::MiniGeneratable<Pair > for Option<BoulderExtraGenericParam>
where
BoulderExtraGenericParam: ::boulder::generator::MiniGeneratable<Pair >,
Generator<Option<BoulderExtraGenericParam> >: ::boulder::Generator<Output = Option<BoulderExtraGenericParam>>,

{
type Generator = Generator<Option<BoulderExtraGenericParam> >;
fn mini_generator() -> Self::Generator {
Generator::new()
}
}

impl<BoulderExtraGenericParam > NestedGenerate  for Generator<Option<BoulderExtraGenericParam> >
where
Generator<BoulderExtraGenericParam >: NestedGenerate ,

{
type Output = Option<<Generator<BoulderExtraGenericParam > as NestedGenerate >::Output>;
fn nested_generate<BoulderFunctionParam>(gen: &mut Generator<BoulderFunctionParam >) -> Self::Output {
Some(Generator::<BoulderExtraGenericParam >::nested_generate(gen))
}
}

impl<BoulderExtraGenericParam > ::boulder::generator::MiniGeneratable<Pair > for ::std::rc::Rc<BoulderExtraGenericParam>
where
BoulderExtraGenericParam: ::boulder::generator::MiniGeneratable<Pair >,
Generator<::std::rc::Rc<BoulderExtraGenericParam> >: ::boulder::Generator<Output = ::std::rc::Rc<BoulderExtraGenericParam>>,

{
type Generator = Generator<::std::rc::Rc<BoulderExtraGenericParam> >;
fn mini_generator() -> Self::Generator {
Generator::new()
}
}

impl<BoulderExtraGenericParam > NestedGenerate  for Generator<::std::rc::Rc<BoulderExtraGenericParam> >
where
Generator<BoulderExtraGenericParam >: NestedGenerate ,

{
type Output = ::std::rc::Rc<<Generator<BoulderExtraGenericParam > as NestedGenerate >::Output>;
fn nested_generate<BoulderFunctionParam>(gen: &mut Generator<BoulderFunctionParam >) -> Self::Output {
::std::rc::Rc::new(Generator::<BoulderExtraGenericParam >::nested_generate(gen))
}
}

impl<BoulderExtraGenericParam > ::boulder::generator::MiniGeneratable<Pair > for ::std::sync::Arc<BoulderExtraGenericParam>
where
BoulderExtraGenericParam: ::boulder::generator::MiniGeneratable<Pair >,
Generator<::std::sync::Arc<BoulderExtraGenericParam> >: ::boulder::Generator<Output = ::std::sync::Arc<BoulderExtraGenericParam>>,

{
type Generator = Generator<::std::sync::Arc<BoulderExtraGenericParam> >;
fn mini_generator() -> Self::Generator {
Generator::new()
}
}

impl<BoulderExtraGenericParam > NestedGenerate  for Generator<::std::sync::Arc<BoulderExtraGenericParam> >
where
Generator<BoulderExtraGenericParam >: NestedGenerate ,

{
type Output = ::std::sync::Arc<<Generator<BoulderExtraGenericParam > as NestedGenerate >::Output>;
fn nested_generate<BoulderFunctionParam>(gen: &mut Generator<BoulderFunctionParam >) -> Self::Output {
::std::sync::Arc::new(Generator::<BoulderExtraGenericParam >::nested_generate(gen))
}
}

impl<BoulderExtraGenericParam > ::boulder::generator::MiniGeneratable<Pair > for ::std::cell::Cell<BoulderExtraGenericParam>
where
BoulderExtraGenericParam: ::boulder::generator::MiniGeneratable<Pair >,
Generator<::std::cell::Cell<BoulderExtraGenericParam> >: ::boulder::Generator<Output = ::std::cell::Cell<BoulderExtraGenericParam>>,

{
type Generator = Generator<::std::cell::Cell<BoulderExtraGenericParam> >;
fn mini_generator() -> Self::Generator {
Generator::new()
}
}

impl<BoulderExtraGenericParam > NestedGenerate  for Generator<::std::cell::Cell<BoulderExtraGenericParam> >
where
Generator<BoulderExtraGenericParam >: NestedGenerate ,

{
type Output = ::std::cell::Cell<<Generator<BoulderExtraGenericParam > as NestedGenerate >::Output>;
fn nested_generate<BoulderFunctionParam>(gen: &mut Generator<BoulderFunctionParam >) -> Self::Output {
::std::cell::Cell::new(Generator::<BoulderExtraGenericParam >::nested_generate(gen))
}
}

impl<BoulderExtraGenericParam > ::boulder::generator::MiniGeneratable<Pair > for ::std::cell::RefCell<BoulderExtraGenericParam>
where
BoulderExtraGenericParam: ::boulder::generator::MiniGeneratable<Pair >,
Generator<::std::cell::RefCell<BoulderExtraGenericParam> >: ::boulder::Generator<Output = ::std::cell::RefCell<BoulderExtraGenericParam>>,

{
type Generator = Generator<::std::cell::RefCell<BoulderExtraGenericParam> >;
fn mini_generator() -> Self::Generator {
Generator::new()
}
}

impl<BoulderExtraGenericParam > NestedGenerate  for Generator<::std::cell::RefCell<BoulderExtraGenericParam> >
where
Generator<BoulderExtraGenericParam >: NestedGenerate ,

{
type Output = ::std::cell::RefCell<<Generator<BoulderExtraGenericParam > as NestedGenerate >::Output>;
fn nested_generate<BoulderFunctionParam>(gen: &mut Generator<BoulderFunctionParam >) -> Self::Output {
::std::cell::RefCell::new(Generator::<BoulderExtraGenericParam >::nested_generate(gen))
}
}

impl<BoulderExtraGenericParam > ::boulder::generator::MiniGeneratable<Pair > for ::std::sync::Mutex<BoulderExtraGenericParam>
where
BoulderExtraGenericParam: ::boulder::generator::MiniGeneratable<Pair >,
Generator<::std::sync::Mutex<BoulderExtraGenericParam> >: ::boulder::Generator<Output = ::std::sync::Mutex<BoulderExtraGenericParam>>,

{
type Generator = Generator<::std::sync::Mutex<BoulderExtraGenericParam> >;
fn mini_generator() -> Self::Generator {
Generator::new()
}
}

impl<BoulderExtraGenericParam > NestedGenerate  for Generator<::std::sync::Mutex<BoulderExtraGenericParam> >
where
Generator<BoulderExtraGenericParam >: NestedGenerate ,

{
type Output = ::std::sync::Mutex<<Generator<BoulderExtraGenericParam > as NestedGenerate >::Output>;
fn nested_generate<BoulderFunctionParam>(gen: &mut Generator<BoulderFunctionParam >) -> Self::Output {
::std::sync::Mutex::new(Generator::<BoulderExtraGenericParam >::nested_generate(gen))
}
}


pub struct Values<BoulderExtraGenericParam>(::boulder::GeneratorIterator<BoulderExtraGenericParam>);

impl<BoulderExtraGenericParam> ::std::iter::Iterator for Values<BoulderExtraGenericParam>
where
BoulderExtraGenericParam: ::boulder::Generator,
{
type Item = <BoulderExtraGenericParam as ::boulder::Generator>::Output;
fn next(&mut self) -> Option<Self::Item> {
self.0.next()
}
}

pub struct ValuesMut<'boulder_reference_lifetime, BoulderExtraGenericParam>(::boulder::GeneratorMutIterator<'boulder_reference_lifetime, BoulderExtraGenericParam>);

impl<'boulder_reference_lifetime, BoulderExtraGenericParam> ::std::iter::Iterator for ValuesMut<'boulder_reference_lifetime, BoulderExtraGenericParam>
where
BoulderExtraGenericParam: ::boulder::Generator,
{
type Item = <BoulderExtraGenericParam as ::boulder::Generator>::Output;
fn next(&mut self) -> Option<Self::Item> {
self.0.next()
}
}

impl<BoulderExtraGenericParam > ::std::iter::IntoIterator for Generator<BoulderExtraGenericParam >
where
Generator<BoulderExtraGenericParam >: ::boulder::Generator<Output = BoulderExtraGenericParam>,

{
type Item = BoulderExtraGenericParam;
type IntoIter = Values<Self>;
fn into_iter(self) -> Self::IntoIter {
Values(::boulder::GeneratorIterator::new(self))
}
}

impl<'boulder_reference_lifetime, BoulderExtraGenericParam > ::std::iter::IntoIterator for &'boulder_reference_lifetime mut Generator<BoulderExtraGenericParam >
where
Generator<BoulderExtraGenericParam >: ::boulder::Generator<Output = BoulderExtraGenericParam>,

{
type Item = BoulderExtraGenericParam;
type IntoIter = ValuesMut<'boulder_reference_lifetime, Generator<BoulderExtraGenericParam >>;
fn into_iter(self) -> Self::IntoIter {
ValuesMut(::boulder::GeneratorMutIterator::new(self))
}
}
};

#[derive(Debug, PartialEq)]
pub struct OnlyValue  {
    x: Pair,
}

const _: () = {
pub struct Builder<BoulderTypeMarkerParam >  {
_boulder_type_marker: ::core::marker::PhantomData<BoulderTypeMarkerParam>,
x: Pair,
}

impl<BoulderTypeMarkerParam > Builder<BoulderTypeMarkerParam >  {
pub fn new() -> Self {
Self {
_boulder_type_marker: Default::default(),
x: (Pair { a : 9 , b : "nine" . to_string () }).into(),
}
}

fn change_type<BoulderFunctionTypeParam>(self) -> Builder<BoulderFunctionTypeParam > {
Builder {
_boulder_type_marker: Default::default(),
x: self.x,
}
}

pub fn x<S>(mut self, value: S) -> Self where S: Into<Pair> { self.x = value.into(); self }
}

impl  ::boulder::builder::BoulderBase for OnlyValue   {
type Base = OnlyValue ;
}

impl  ::boulder::builder::MiniBuildable<OnlyValue > for OnlyValue   {
type Builder = Builder<OnlyValue  >;
fn mini_builder() -> Self::Builder {
Builder::new()
}
}

impl  ::boulder::Builder for Builder<OnlyValue  >  {
type Result = OnlyValue ;
fn build(self) -> OnlyValue  {
OnlyValue {
x: self.x,
}
}
}

impl<BoulderExtraGenericParam > ::boulder::builder::MiniBuildable<OnlyValue > for Option<BoulderExtraGenericParam>
where
BoulderExtraGenericParam: ::boulder::builder::MiniBuildable<OnlyValue >,
Builder<BoulderExtraGenericParam >: ::boulder::Builder<Result = BoulderExtraGenericParam>,

{
type Builder = Builder<Option<BoulderExtraGenericParam> >;
fn mini_builder() -> Self::Builder {
Builder::new()
}
}

impl<BoulderExtraGenericParam > ::boulder::Builder for Builder<Option<BoulderExtraGenericParam> >
where
Builder<BoulderExtraGenericParam >: ::boulder::Builder<Result = BoulderExtraGenericParam>,

{
type Result = Option<BoulderExtraGenericParam>;
fn build(self) -> Option<BoulderExtraGenericParam> {
Some(<Builder<BoulderExtraGenericParam > as ::boulder::Builder>::build(self.change_type()))
}
}

impl<BoulderExtraGenericParam > ::boulder::builder::MiniBuildable<OnlyValue > for ::std::rc::Rc<BoulderExtraGenericParam>
where
BoulderExtraGenericParam: ::boulder::builder::MiniBuildable<OnlyValue >,
Builder<BoulderExtraGenericParam >: ::boulder::Builder<Result = BoulderExtraGenericParam>,

{
type Builder = Builder<::std::rc::Rc<BoulderExtraGenericParam> >;
fn mini_builder() -> Self::Builder {
Builder::new()
}
}

impl<BoulderExtraGenericParam > ::boulder::Builder for Builder<::std::rc::Rc<BoulderExtraGenericParam> >
where
Builder<BoulderExtraGenericParam >: ::boulder::Builder<Result = BoulderExtraGenericParam>,

{
type Result = ::std::rc::Rc<BoulderExtraGenericParam>;
fn build(self) -> ::std::rc::Rc<BoulderExtraGenericParam> {
::std::rc::Rc::new(<Builder<BoulderExtraGenericParam > as ::boulder::Builder>::build(self.change_type()))
}
}

impl<BoulderExtraGenericParam > ::boulder::builder::MiniBuildable<OnlyValue > for ::std::sync::Arc<BoulderExtraGenericParam>
where
BoulderExtraGenericParam: ::boulder::builder::MiniBuildable<OnlyValue >,
Builder<BoulderExtraGenericParam >: ::boulder::Builder<Result = BoulderExtraGenericParam>,

{
type Builder = Builder<::std::sync::Arc<BoulderExtraGenericParam> >;
fn mini_builder() -> Self::Builder {
Builder::new()
}
}

impl<BoulderExtraGenericParam > ::boulder::Builder for Builder<::std::sync::Arc<BoulderExtraGenericParam> >
where
Builder<BoulderExtraGenericParam >: ::boulder::Builder<Result = BoulderExtraGenericParam>,

{
type Result = ::std::sync::Arc<BoulderExtraGenericParam>;
fn build(self) -> ::std::sync::Arc<BoulderExtraGenericParam> {
::std::sync::Arc::new(<Builder<BoulderExtraGenericParam > as ::boulder::Builder>::build(self.change_type()))
}
}

impl<BoulderExtraGenericParam > ::boulder::builder::MiniBuildable<OnlyValue > for ::std::cell::Cell<BoulderExtraGenericParam>
where
BoulderExtraGenericParam: ::boulder::builder::MiniBuildable<OnlyValue >,
Builder<BoulderExtraGenericParam >: ::boulder::Builder<Result = BoulderExtraGenericParam>,

{
type Builder = Builder<::std::cell::Cell<BoulderExtraGenericParam> >;
fn mini_builder() -> Self::Builder {
Builder::new()
}
}

impl<BoulderExtraGenericParam > ::boulder::Builder for Builder<::std::cell::Cell<BoulderExtraGenericParam> >
where
Builder<BoulderExtraGenericParam >: ::boulder::Builder<Result = BoulderExtraGenericParam>,

{
type Result = ::std::cell::Cell<BoulderExtraGenericParam>;
fn build(self) -> ::std::cell::Cell<BoulderExtraGenericParam> {
::std::cell::Cell::new(<Builder<BoulderExtraGenericParam > as ::boulder::Builder>::build(self.change_type()))
}
}

impl<BoulderExtraGenericParam > ::boulder::builder::MiniBuildable<OnlyValue > for ::std::cell::RefCell<BoulderExtraGenericParam>
where
BoulderExtraGenericParam: ::boulder::builder::MiniBuildable<OnlyValue >,
Builder<BoulderExtraGenericParam >: ::boulder::Builder<Result = BoulderExtraGenericParam>,

{
type Builder = Builder<::std::cell::RefCell<BoulderExtraGenericParam> >;
fn mini_builder() -> Self::Builder {
Builder::new()
}
}

impl<BoulderExtraGenericParam > ::boulder::Builder for Builder<::std::cell::RefCell<BoulderExtraGenericParam> >
where
Builder<BoulderExtraGenericParam >: ::boulder::Builder<Result = BoulderExtraGenericParam>,

{
type Result = ::std::cell::RefCell<BoulderExtraGenericParam>;
fn build(self) -> ::std::cell::RefCell<BoulderExtraGenericParam> {
::std::cell::RefCell::new(<Builder<BoulderExtraGenericParam > as ::boulder::Builder>::build(self.change_type()))
}
}

impl<BoulderExtraGenericParam > ::boulder::builder::MiniBuildable<OnlyValue > for ::std::sync::Mutex<BoulderExtraGenericParam>
where
BoulderExtraGenericParam: ::boulder::builder::MiniBuildable<OnlyValue >,
Builder<BoulderExtraGenericParam >: ::boulder::Builder<Result = BoulderExtraGenericParam>,

{
type Builder = Builder<::std::sync::Mutex<BoulderExtraGenericParam> >;
fn mini_builder() -> Self::Builder {
Builder::new()
}
}

impl<BoulderExtraGenericParam > ::boulder::Builder for Builder<::std::sync::Mutex<BoulderExtraGenericParam> >
where
Builder<BoulderExtraGenericParam >: ::boulder::Builder<Result = BoulderExtraGenericParam>,

{
type Result = ::std::sync::Mutex<BoulderExtraGenericParam>;
fn build(self) -> ::std::sync::Mutex<BoulderExtraGenericParam> {
::std::sync::Mutex::new(<Builder<BoulderExtraGenericParam > as ::boulder::Builder>::build(self.change_type()))
}
}

};

#[derive(Debug, PartialEq)]
pub struct OnlyBuilder  {
    x: Pair,
}

const _: () = {
pub struct Builder<BoulderTypeMarkerParam >  {
_boulder_type_marker: ::core::marker::PhantomData<BoulderTypeMarkerParam>,
x: Pair,
}

impl<BoulderTypeMarkerParam > Builder<BoulderTypeMarkerParam >  {
pub fn new() -> Self {
Self {
_boulder_type_marker: Default::default(),
x: <<Pair as ::boulder::Buildable>::Builder as ::boulder::Builder>::build(<Pair as ::boulder::Buildable>::builder().a(7)),
}
}

fn change_type<BoulderFunctionTypeParam>(self) -> Builder<BoulderFunctionTypeParam > {
Builder {
_boulder_type_marker: Default::default(),
x: self.x,
}
}

pub fn x<S>(mut self, value: S) -> Self where S: Into<Pair> { self.x = value.into(); self }
}

impl  ::boulder::builder::BoulderBase for OnlyBuilder   {
type Base = OnlyBuilder ;
}

impl  ::boulder::builder::MiniBuildable<OnlyBuilder > for OnlyBuilder   {
type Builder = Builder<OnlyBuilder  >;
fn mini_builder() -> Self::Builder {
Builder::new()
}
}

impl  ::boulder::Builder for Builder<OnlyBuilder  >  {
type Result = OnlyBuilder ;
fn build(self) -> OnlyBuilder  {
OnlyBuilder {
x: self.x,
}
}
}

impl<BoulderExtraGenericParam > ::boulder::builder::MiniBuildable<OnlyBuilder > for Option<BoulderExtraGenericParam>
where
BoulderExtraGenericParam: ::boulder::builder::MiniBuildable<OnlyBuilder >,
Builder<BoulderExtraGenericParam >: ::boulder::Builder<Result = BoulderExtraGenericParam>,

{
type Builder = Builder<Option<BoulderExtraGenericParam> >;
fn mini_builder() -> Self::Builder {
Builder::new()
}
}

impl<BoulderExtraGenericParam > ::boulder::Builder for Builder<Option<BoulderExtraGenericParam> >
where
Builder<BoulderExtraGenericParam >: ::boulder::Builder<Result = BoulderExtraGenericParam>,

{
type Result = Option<BoulderExtraGenericParam>;
fn build(self) -> Option<BoulderExtraGenericParam> {
Some(<Builder<BoulderExtraGenericParam > as ::boulder::Builder>::build(self.change_type()))
}
}

impl<BoulderExtraGenericParam > ::boulder::builder::MiniBuildable<OnlyBuilder > for ::std::rc::Rc<BoulderExtraGenericParam>
where
BoulderExtraGenericParam: ::boulder::builder::MiniBuildable<OnlyBuilder >,
Builder<BoulderExtraGenericParam >: ::boulder::Builder<Result = BoulderExtraGenericParam>,

{
type Builder = Builder<::std::rc::Rc<BoulderExtraGenericParam> >;
fn mini_builder() -> Self::Builder {
Builder::new()
}
}

impl<BoulderExtraGenericParam > ::boulder::Builder for Builder<::std::rc::Rc<BoulderExtraGenericParam> >
where
Builder<BoulderExtraGenericParam >: ::boulder::Builder<Result = BoulderExtraGenericParam>,

{
type Result = ::std::rc::Rc<BoulderExtraGenericParam>;
fn build(self) -> ::std::rc::Rc<BoulderExtraGenericParam> {
::std::rc::Rc::new(<Builder<BoulderExtraGenericParam > as ::boulder::Builder>::build(self.change_type()))
}
}

impl<BoulderExtraGenericParam > ::boulder::builder::MiniBuildable<OnlyBuilder > for ::std::sync::Arc<BoulderExtraGenericParam>
where
BoulderExtraGenericParam: ::boulder::builder::MiniBuildable<OnlyBuilder >,
Builder<BoulderExtraGenericParam >: ::boulder::Builder<Result = BoulderExtraGenericParam>,

{
type Builder = Builder<::std::sync::Arc<BoulderExtraGenericParam> >;
fn mini_builder() -> Self::Builder {
Builder::new()
}
}

impl<BoulderExtraGenericParam > ::boulder::Builder for Builder<::std::sync::Arc<BoulderExtraGenericParam> >
where
Builder<BoulderExtraGenericParam >: ::boulder::Builder<Result = BoulderExtraGenericParam>,

{
type Result = ::std::sync::Arc<BoulderExtraGenericParam>;
fn build(self) -> ::std::sync::Arc<BoulderExtraGenericParam> {
::std::sync::Arc::new(<Builder<BoulderExtraGenericParam > as ::boulder::Builder>::build(self.change_type()))
}
}

impl<BoulderExtraGenericParam > ::boulder::builder::MiniBuildable<OnlyBuilder > for ::std::cell::Cell<BoulderExtraGenericParam>
where
BoulderExtraGenericParam: ::boulder::builder::MiniBuildable<OnlyBuilder >,
Builder<BoulderExtraGenericParam >: ::boulder::Builder<Result = BoulderExtraGenericParam>,

{
type Builder = Builder<::std::cell::Cell<BoulderExtraGenericParam> >;
fn mini_builder() -> Self::Builder {
Builder::new()
}
}

impl<BoulderExtraGenericParam > ::boulder::Builder for Builder<::std::cell::Cell<BoulderExtraGenericParam> >
where
Builder<BoulderExtraGenericParam >: ::boulder::Builder<Result = BoulderExtraGenericParam>,

{
type Result = ::std::cell::Cell<BoulderExtraGenericParam>;
fn build(self) -> ::std::cell::Cell<BoulderExtraGenericParam> {
::std::cell::Cell::new(<Builder<BoulderExtraGenericParam > as ::boulder::Builder>::build(self.change_type()))
}
}

impl<BoulderExtraGenericParam > ::boulder::builder::MiniBuildable<OnlyBuilder > for ::std::cell::RefCell<BoulderExtraGenericParam>
where
BoulderExtraGenericParam: ::boulder::builder::MiniBuildable<OnlyBuilder >,
Builder<BoulderExtraGenericParam >: ::boulder::Builder<Result = BoulderExtraGenericParam>,

{
type Builder = Builder<::std::cell::RefCell<BoulderExtraGenericParam> >;
fn mini_builder() -> Self::Builder {
Builder::new()
}
}

impl<BoulderExtraGenericParam > ::boulder::Builder for Builder<::std::cell::RefCell<BoulderExtraGenericParam> >
where
Builder<BoulderExtraGenericParam >: ::boulder::Builder<Result = BoulderExtraGenericParam>,

{
type Result = ::std::cell::RefCell<BoulderExtraGenericParam>;
fn build(self) -> ::std::cell::RefCell<BoulderExtraGenericParam> {
::std::cell::RefCell::new(<Builder<BoulderExtraGenericParam > as ::boulder::Builder>::build(self.change_type()))
}
}

impl<BoulderExtraGenericParam > ::boulder::builder::MiniBuildable<OnlyBuilder > for ::std::sync::Mutex<BoulderExtraGenericParam>
where
BoulderExtraGenericParam: ::boulder::builder::MiniBuildable<OnlyBuilder >,
Builder<BoulderExtraGenericParam >: ::boulder::Builder<Result = BoulderExtraGenericParam>,

{
type Builder = Builder<::std::sync::Mutex<BoulderExtraGenericParam> >;
fn mini_builder() -> Self::Builder {
Builder::new()
}
}

impl<BoulderExtraGenericParam > ::boulder::Builder for Builder<::std::sync::Mutex<BoulderExtraGenericParam> >
where
Builder<BoulderExtraGenericParam >: ::boulder::Builder<Result = BoulderExtraGenericParam>,

{
type Result = ::std::sync::Mutex<BoulderExtraGenericParam>;
fn build(self) -> ::std::sync::Mutex<BoulderExtraGenericParam> {
::std::sync::Mutex::new(<Builder<BoulderExtraGenericParam > as ::boulder::Builder>::build(self.change_type()))
}
}

};

#[derive(Debug, PartialEq)]
pub struct Both  {
    x: Pair,
}

const _: () = {
pub struct Builder<BoulderTypeMarkerParam >  {
_boulder_type_marker: ::core::marker::PhantomData<BoulderTypeMarkerParam>,
x: Pair,
}

impl<BoulderTypeMarkerParam > Builder<BoulderTypeMarkerParam >  {
pub fn new() -> Self {
Self {
_boulder_type_marker: Default::default(),
x: (Pair { a : 9 , b : "nine" . to_string () }).into(),
}
}

fn change_type<BoulderFunctionTypeParam>(self) -> Builder<BoulderFunctionTypeParam > {
Builder {
_boulder_type_marker: Default::default(),
x: self.x,
}
}

pub fn x<S>(mut self, value: S) -> Self where S: Into<Pair> { self.x = value.into(); self }
}

impl  ::boulder::builder::BoulderBase for Both   {
type Base = Both ;
}

impl  ::boulder::builder::MiniBuildable<Both > for Both   {
type Builder = Builder<Both  >;
fn mini_builder() -> Self::Builder {
Builder::new()
}
}

impl  ::boulder::Builder for Builder<Both  >  {
type Result = Both ;
fn build(self) -> Both  {
Both {
x: self.x,
}
}
}

impl<BoulderExtraGenericParam > ::boulder::builder::MiniBuildable<Both > for Option<BoulderExtraGenericParam>
where
BoulderExtraGenericParam: ::boulder::builder::MiniBuildable<Both >,
Builder<BoulderExtraGenericParam >: ::boulder::Builder<Result = BoulderExtraGenericParam>,

{
type Builder = Builder<Option<BoulderExtraGenericParam> >;
fn mini_builder() -> Self::Builder {
Builder::new()
}
}

impl<BoulderExtraGenericParam > ::boulder::Builder for Builder<Option<BoulderExtraGenericParam> >
where
Builder<BoulderExtraGenericParam >: ::boulder::Builder<Result = BoulderExtraGenericParam>,

{
type Result = Option<BoulderExtraGenericParam>;
fn build(self) -> Option<BoulderExtraGenericParam> {
Some(<Builder<BoulderExtraGenericParam > as ::boulder::Builder>::build(self.change_type()))
}
}

impl<BoulderExtraGenericParam > ::boulder::builder::MiniBuildable<Both > for ::std::rc::Rc<BoulderExtraGenericParam>
where
BoulderExtraGenericParam: ::boulder::builder::MiniBuildable<Both >,
Builder<BoulderExtraGenericParam >: ::boulder::Builder<Result = BoulderExtraGenericParam>,

{
type Builder = Builder<::std::rc::Rc<BoulderExtraGenericParam> >;
fn mini_builder() -> Self::Builder {
Builder::new()
}
}

impl<BoulderExtraGenericParam > ::boulder::Builder for Builder<::std::rc::Rc<BoulderExtraGenericParam> >
where
Builder<BoulderExtraGenericParam >: ::boulder::Builder<Result = BoulderExtraGenericParam>,

{
type Result = ::std::rc::Rc<BoulderExtraGenericParam>;
fn build(self) -> ::std::rc::Rc<BoulderExtraGenericParam> {
::std::rc::Rc::new(<Builder<BoulderExtraGenericParam > as ::boulder::Builder>::build(self.change_type()))
}
}

impl<BoulderExtraGenericParam > ::boulder::builder::MiniBuildable<Both > for ::std::sync::Arc<BoulderExtraGenericParam>
where
BoulderExtraGenericParam: ::boulder::builder::MiniBuildable<Both >,
Builder<BoulderExtraGenericParam >: ::boulder::Builder<Result = BoulderExtraGenericParam>,

{
type Builder = Builder<::std::sync::Arc<BoulderExtraGenericParam> >;
fn mini_builder() -> Self::Builder {
Builder::new()
}
}

impl<BoulderExtraGenericParam > ::boulder::Builder for Builder<::std::sync::Arc<BoulderExtraGenericParam> >
where
Builder<BoulderExtraGenericParam >: ::boulder::Builder<Result = BoulderExtraGenericParam>,

{
type Result = ::std::sync::Arc<BoulderExtraGenericParam>;
fn build(self) -> ::std::sync::Arc<BoulderExtraGenericParam> {
::std::sync::Arc::new(<Builder<BoulderExtraGenericParam > as ::boulder::Builder>::build(self.change_type()))
}
}

impl<BoulderExtraGenericParam > ::boulder::builder::MiniBuildable<Both > for ::std::cell::Cell<BoulderExtraGenericParam>
where
BoulderExtraGenericParam: ::boulder::builder::MiniBuildable<Both >,
Builder<BoulderExtraGenericParam >: ::boulder::Builder<Result = BoulderExtraGenericParam>,

{
type Builder = Builder<::std::cell::Cell<BoulderExtraGenericParam> >;
fn mini_builder() -> Self::Builder {
Builder::new()
}
}

impl<BoulderExtraGenericParam > ::boulder::Builder for Builder<::std::cell::Cell<BoulderExtraGenericParam> >
where
Builder<BoulderExtraGenericParam >: ::boulder::Builder<Result = BoulderExtraGenericParam>,

{
type Result = ::std::cell::Cell<BoulderExtraGenericParam>;
fn build(self) -> ::std::cell::Cell<BoulderExtraGenericParam> {
::std::cell::Cell::new(<Builder<BoulderExtraGenericParam > as ::boulder::Builder>::build(self.change_type()))
}
}

impl<BoulderExtraGenericParam > ::boulder::builder::MiniBuildable<Both > for ::std::cell::RefCell<BoulderExtraGenericParam>
where
BoulderExtraGenericParam: ::boulder::builder::MiniBuildable<Both >,
Builder<BoulderExtraGenericParam >: ::boulder::Builder<Result = BoulderExtraGenericParam>,

{
type Builder = Builder<::std::cell::RefCell<BoulderExtraGenericParam> >;
fn mini_builder() -> Self::Builder {
Builder::new()
}
}

impl<BoulderExtraGenericParam > ::boulder::Builder for Builder<::std::cell::RefCell<BoulderExtraGenericParam> >
where
Builder<BoulderExtraGenericParam >: ::boulder::Builder<Result = BoulderExtraGenericParam>,

{
type Result = ::std::cell::RefCell<BoulderExtraGenericParam>;
fn build(self) -> ::std::cell::RefCell<BoulderExtraGenericParam> {
::std::cell::RefCell::new(<Builder<BoulderExtraGenericParam > as ::boulder::Builder>::build(self.change_type()))
}
}

impl<BoulderExtraGenericParam > ::boulder::builder::MiniBuildable<Both > for ::std::sync::Mutex<BoulderExtraGenericParam>
where
BoulderExtraGenericParam: ::boulder::builder::MiniBuildable<Both >,
Builder<BoulderExtraGenericParam >: ::boulder::Builder<Result = BoulderExtraGenericParam>,

{
type Builder = Builder<::std::sync::Mutex<BoulderExtraGenericParam> >;
fn mini_builder() -> Self::Builder {
Builder::new()
}
}

impl<BoulderExtraGenericParam > ::boulder::Builder for Builder<::std::sync::Mutex<BoulderExtraGenericParam> >
where
Builder<BoulderExtraGenericParam >: ::boulder::Builder<Result = BoulderExtraGenericParam>,

{
type Result = ::std::sync::Mutex<BoulderExtraGenericParam>;
fn build(self) -> ::std::sync::Mutex<BoulderExtraGenericParam> {
::std::sync::Mutex::new(<Builder<BoulderExtraGenericParam > as ::boulder::Builder>::build(self.change_type()))
}
}

};

#[derive(Debug, PartialEq)]
pub struct Rows  {
    none: Vec<i32>,
    one: Vec<i32>,
    some: Vec<i32>,
}

const _: () = {
pub struct Builder<BoulderTypeMarkerParam >  {
_boulder_type_marker: ::core::marker::PhantomData<BoulderTypeMarkerParam>,
none: Vec<i32>,
one: Vec<i32>,
some: Vec<i32>,
}

impl<BoulderTypeMarkerParam > Builder<BoulderTypeMarkerParam >  {
pub fn new() -> Self {
Self {
_boulder_type_marker: Default::default(),
none: ::boulder::GeneratorIterator::new(|| Default::default()).take(0).into_iter().collect(),
one: ::boulder::GeneratorIterator::new(|| (8).into()).take(1).into_iter().collect(),
some: ::boulder::GeneratorIterator::new({ boulder :: Inc (1) }).take(4).into_iter().collect(),
}
}

fn change_type<BoulderFunctionTypeParam>(self) -> Builder<BoulderFunctionTypeParam > {
Builder {
_boulder_type_marker: Default::default(),
none: self.none,
one: self.one,
some: self.some,
}
}

pub fn none<S>(mut self, value: S) -> Self where S: Into<Vec<i32>> { self.none = value.into(); self }
pub fn one<S>(mut self, value: S) -> Self where S: Into<Vec<i32>> { self.one = value.into(); self }
pub fn some<S>(mut self, value: S) -> Self where S: Into<Vec<i32>> { self.some = value.into(); self }
}

impl  ::boulder::builder::BoulderBase for Rows   {
type Base = Rows ;
}

impl  ::boulder::builder::MiniBuildable<Rows > for Rows   {
type Builder = Builder<Rows  >;
fn mini_builder() -> Self::Builder {
Builder::new()
}
}

impl  ::boulder::Builder for Builder<Rows  >  {
type Result = Rows ;
fn build(self) -> Rows  {
Rows {
none: self.none,
one: self.one,
some: self.some,
}
}
}

impl<BoulderExtraGenericParam > ::boulder::builder::MiniBuildable<Rows > for Option<BoulderExtraGenericParam>
where
BoulderExtraGenericParam: ::boulder::builder::MiniBuildable<Rows >,
Builder<BoulderExtraGenericParam >: ::boulder::Builder<Result = BoulderExtraGenericParam>,

{
type Builder = Builder<Option<BoulderExtraGenericParam> >;
fn mini_builder() -> Self::Builder {
Builder::new()
}
}

impl<BoulderExtraGenericParam > ::boulder::Builder for Builder<Option<BoulderExtraGenericParam> >
where
Builder<BoulderExtraGenericParam >: ::boulder::Builder<Result = BoulderExtraGenericParam>,

{
type Result = Option<BoulderExtraGenericParam>;
fn build(self) -> Option<BoulderExtraGenericParam> {
Some(<Builder<BoulderExtraGenericParam > as ::boulder::Builder>::build(self.change_type()))
}
}

impl<BoulderExtraGenericParam > ::boulder::builder::MiniBuildable<Rows > for ::std::rc::Rc<BoulderExtraGenericParam>
where
BoulderExtraGenericParam: ::boulder::builder::MiniBuildable<Rows >,
Builder<BoulderExtraGenericParam >: ::boulder::Builder<Result = BoulderExtraGenericParam>,

{
type Builder = Builder<::std::rc::Rc<BoulderExtraGenericParam> >;
fn mini_builder() -> Self::Builder {
Builder::new()
}
}

impl<BoulderExtraGenericParam > ::boulder::Builder for Builder<::std::rc::Rc<BoulderExtraGenericParam> >
where
Builder<BoulderExtraGenericParam >: ::boulder::Builder<Result = BoulderExtraGenericParam>,

{
type Result = ::std::rc::Rc<BoulderExtraGenericParam>;
fn build(self) -> ::std::rc::Rc<BoulderExtraGenericParam> {
::std::rc::Rc::new(<Builder<BoulderExtraGenericParam > as ::boulder::Builder>::build(self.change_type()))
}
}

impl<BoulderExtraGenericParam > ::boulder::builder::MiniBuildable<Rows > for ::std::sync::Arc<BoulderExtraGenericParam>
where
BoulderExtraGenericParam: ::boulder::builder::MiniBuildable<Rows >,
Builder<BoulderExtraGenericParam >: ::boulder::Builder<Result = BoulderExtraGenericParam>,

{
type Builder = Builder<::std::sync::Arc<BoulderExtraGenericParam> >;
fn mini_builder() -> Self::Builder {
Builder::new()
}
}

impl<BoulderExtraGenericParam > ::boulder::Builder for Builder<::std::sync::Arc<BoulderExtraGenericParam> >
where
Builder<BoulderExtraGenericParam >: ::boulder::Builder<Result = BoulderExtraGenericParam>,

{
type Result = ::std::sync::Arc<BoulderExtraGenericParam>;
fn build(self) -> ::std::sync::Arc<BoulderExtraGenericParam> {
::std::sync::Arc::new(<Builder<BoulderExtraGenericParam > as ::boulder::Builder>::build(self.change_type()))
}
}

impl<BoulderExtraGenericParam > ::boulder::builder::MiniBuildable<Rows > for ::std::cell::Cell<BoulderExtraGenericParam>
where
BoulderExtraGenericParam: ::boulder::builder::MiniBuildable<Rows >,
Builder<BoulderExtraGenericParam >: ::boulder::Builder<Result = BoulderExtraGenericParam>,

{
type Builder = Builder<::std::cell::Cell<BoulderExtraGenericParam> >;
fn mini_builder() -> Self::Builder {
Builder::new()
}
}

impl<BoulderExtraGenericParam > ::boulder::Builder for Builder<::std::cell::Cell<BoulderExtraGenericParam> >
where
Builder<BoulderExtraGenericParam >: ::boulder::Builder<Result = BoulderExtraGenericParam>,

{
type Result = ::std::cell::Cell<BoulderExtraGenericParam>;
fn build(self) -> ::std::cell::Cell<BoulderExtraGenericParam> {
::std::cell::Cell::new(<Builder<BoulderExtraGenericParam > as ::boulder::Builder>::build(self.change_type()))
}
}

impl<BoulderExtraGenericParam > ::boulder::builder::MiniBuildable<Rows > for ::std::cell::RefCell<BoulderExtraGenericParam>
where
BoulderExtraGenericParam: ::boulder::builder::MiniBuildable<Rows >,
Builder<BoulderExtraGenericParam >: ::boulder::Builder<Result = BoulderExtraGenericParam>,

{
type Builder = Builder<::std::cell::RefCell<BoulderExtraGenericParam> >;
fn mini_builder() -> Self::Builder {
Builder::new()
}
}

impl<BoulderExtraGenericParam > ::boulder::Builder for Builder<::std::cell::RefCell<BoulderExtraGenericParam> >
where
Builder<BoulderExtraGenericParam >: ::boulder::Builder<Result = BoulderExtraGenericParam>,

{
type Result = ::std::cell::RefCell<BoulderExtraGenericParam>;
fn build(self) -> ::std::cell::RefCell<BoulderExtraGenericParam> {
::std::cell::RefCell::new(<Builder<BoulderExtraGenericParam > as ::boulder::Builder>::build(self.change_type()))
}
}

impl<BoulderExtraGenericParam > ::boulder::builder::MiniBuildable<Rows > for ::std::sync::Mutex<BoulderExtraGenericParam>
where
BoulderExtraGenericParam: ::boulder::builder::MiniBuildable<Rows >,
Builder<BoulderExtraGenericParam >: ::boulder::Builder<Result = BoulderExtraGenericParam>,

{
type Builder = Builder<::std::sync::Mutex<BoulderExtraGenericParam> >;
fn mini_builder() -> Self::Builder {
Builder::new()
}
}

impl<BoulderExtraGenericParam > ::boulder::Builder for Builder<::std::sync::Mutex<BoulderExtraGenericParam> >
where
Builder<BoulderExtraGenericParam >: ::boulder::Builder<Result = BoulderExtraGenericParam>,

{
type Result = ::std::sync::Mutex<BoulderExtraGenericParam>;
fn build(self) -> ::std::sync::Mutex<BoulderExtraGenericParam> {
::std::sync::Mutex::new(<Builder<BoulderExtraGenericParam > as ::boulder::Builder>::build(self.change_type()))
}
}

};

const _: () = {
pub struct Generator<BoulderTypeMarkerParam >  {
_boulder_type_marker: ::core::marker::PhantomData<BoulderTypeMarkerParam>,
none: Box<dyn ::boulder::Generator<Output = Vec<i32>>>,
one: Box<dyn ::boulder::Generator<Output = Vec<i32>>>,
some: Box<dyn ::boulder::Generator<Output = Vec<i32>>>,
}

pub trait NestedGenerate   {
type Output;
fn nested_generate<BoulderFunctionParam>(gen: &mut Generator<BoulderFunctionParam >) -> Self::Output;
}

impl<BoulderTypeMarkerParam > Generator<BoulderTypeMarkerParam >  {
pub fn new() -> Self {
Self {
_boulder_type_marker: Default::default(),
none: { let mut seq = || ((0) as usize); let mut value = { || Default::default() }; Box::new(move || { ::boulder::GeneratorMutIterator::new(&mut value).take(::boulder::Generator::generate(&mut seq).into()).into_iter().collect() }) },
one: { let mut seq = || ((1) as usize); let mut value = { || (8).into() }; Box::new(move || { ::boulder::GeneratorMutIterator::new(&mut value).take(::boulder::Generator::generate(&mut seq).into()).into_iter().collect() }) },
some: { let mut seq = || ((4) as usize); let mut value = { boulder :: Inc (1) }; Box::new(move || { ::boulder::GeneratorMutIterator::new(&mut value).take(::boulder::Generator::generate(&mut seq).into()).into_iter().collect() }) },
}
}

pub fn none<V>(mut self, generator: V) -> Self where V: 'static + ::boulder::Generator<Output = Vec<i32>> { self.none = Box::new(generator); self }
pub fn one<V>(mut self, generator: V) -> Self where V: 'static + ::boulder::Generator<Output = Vec<i32>> { self.one = Box::new(generator); self }
pub fn some<V>(mut self, generator: V) -> Self where V: 'static + ::boulder::Generator<Output = Vec<i32>> { self.some = Box::new(generator); self }
}

impl<BoulderTypeMarkerParam > ::boulder::Generator for Generator<BoulderTypeMarkerParam >
where
Self: NestedGenerate ,
BoulderTypeMarkerParam: 'static,

{
type Output = <Self as NestedGenerate >::Output;
fn generate(&mut self) -> Self::Output {
<Self as NestedGenerate >::nested_generate(self)
}
}

impl  ::boulder::generator::BoulderBase for Rows   {
type Base = Rows ;
}

impl  ::boulder::generator::MiniGeneratable<Rows > for Rows   {
type Generator = Generator<Rows  >;
fn mini_generator() -> Self::Generator {
Generator::new()
}
}

impl  NestedGenerate  for Generator<Rows  >  {
type Output = Rows ;
fn nested_generate<BoulderFunctionParam>(gen: &mut Generator<BoulderFunctionParam >) -> Self::Output {
Rows {
none: gen.none.generate(),
one: gen.one.generate(),
some: gen.some.generate(),
}
}
}

impl<BoulderExtraGenericParam > ::boulder::generator::MiniGeneratable<Rows > for Option<BoulderExtraGenericParam>
where
BoulderExtraGenericParam: ::boulder::generator::MiniGeneratable<Rows >,
Generator<Option<BoulderExtraGenericParam> >: ::boulder::Generator<Output = Option<BoulderExtraGenericParam>>,

{
type Generator = Generator<Option<BoulderExtraGenericParam> >;
fn mini_generator() -> Self::Generator {
Generator::new()
}
}

impl<BoulderExtraGenericParam > NestedGenerate  for Generator<Option<BoulderExtraGenericParam> >
where
Generator<BoulderExtraGenericParam >: NestedGenerate ,

{
type Output = Option<<Generator<BoulderExtraGenericParam > as NestedGenerate >::Output>;
fn nested_generate<BoulderFunctionParam>(gen: &mut Generator<BoulderFunctionParam >) -> Self::Output {
Some(Generator::<BoulderExtraGenericParam >::nested_generate(gen))
}
}

impl<BoulderExtraGenericParam > ::boulder::generator::MiniGeneratable<Rows > for ::std::rc::Rc<BoulderExtraGenericParam>
where
BoulderExtraGenericParam: ::boulder::generator::MiniGeneratable<Rows >,
Generator<::std::rc::Rc<BoulderExtraGenericParam> >: ::boulder::Generator<Output = ::std::rc::Rc<BoulderExtraGenericParam>>,

{
type Generator = Generator<::std::rc::Rc<BoulderExtraGenericParam> >;
fn mini_generator() -> Self::Generator {
Generator::new()
}
}

impl<BoulderExtraGenericParam > NestedGenerate  for Generator<::std::rc::Rc<BoulderExtraGenericParam> >
where
Generator<BoulderExtraGenericParam >: NestedGenerate ,

{
type Output = ::std::rc::Rc<<Generator<BoulderExtraGenericParam > as NestedGenerate >::Output>;
fn nested_generate<BoulderFunctionParam>(gen: &mut Generator<BoulderFunctionParam >) -> Self::Output {
::std::rc::Rc::new(Generator::<BoulderExtraGenericParam >::nested_generate(gen))
}
}

impl<BoulderExtraGenericParam > ::boulder::generator::MiniGeneratable<Rows > for ::std::sync::Arc<BoulderExtraGenericParam>
where
BoulderExtraGenericParam: ::boulder::generator::MiniGeneratable<Rows >,
Generator<::std::sync::Arc<BoulderExtraGenericParam> >: ::boulder::Generator<Output = ::std::sync::Arc<BoulderExtraGenericParam>>,

{
type Generator = Generator<::std::sync::Arc<BoulderExtraGenericParam> >;
fn mini_generator() -> Self::Generator {
Generator::new()
}
}

impl<BoulderExtraGenericParam > NestedGenerate  for Generator<::std::sync::Arc<BoulderExtraGenericParam> >
where
Generator<BoulderExtraGenericParam >: NestedGenerate ,

{
type Output = ::std::sync::Arc<<Generator<BoulderExtraGenericParam > as NestedGenerate >::Output>;
fn nested_generate<BoulderFunctionParam>(gen: &mut Generator<BoulderFunctionParam >) -> Self::Output {
::std::sync::Arc::new(Generator::<BoulderExtraGenericParam >::nested_generate(gen))
}
}

impl<BoulderExtraGenericParam > ::boulder::generator::MiniGeneratable<Rows > for ::std::cell::Cell<BoulderExtraGenericParam>
where
BoulderExtraGenericParam: ::boulder::generator::MiniGeneratable<Rows >,
Generator<::std::cell::Cell<BoulderExtraGenericParam> >: ::boulder::Generator<Output = ::std::cell::Cell<BoulderExtraGenericParam>>,

{
type Generator = Generator<::std::cell::Cell<BoulderExtraGenericParam> >;
fn mini_generator() -> Self::Generator {
Generator::new()
}
}

impl<BoulderExtraGenericParam > NestedGenerate  for Generator<::std::cell::Cell<BoulderExtraGenericParam> >
where
Generator<BoulderExtraGenericParam >: NestedGenerate ,

{
type Output = ::std::cell::Cell<<Generator<BoulderExtraGenericParam > as NestedGenerate >::Output>;
fn nested_generate<BoulderFunctionParam>(gen: &mut Generator<BoulderFunctionParam >) -> Self::Output {
::std::cell::Cell::new(Generator::<BoulderExtraGenericParam >::nested_generate(gen))
}
}

impl<BoulderExtraGenericParam > ::boulder::generator::MiniGeneratable<Rows > for ::std::cell::RefCell<BoulderExtraGenericParam>
where
BoulderExtraGenericParam: ::boulder::generator::MiniGeneratable<Rows >,
Generator<::std::cell::RefCell<BoulderExtraGenericParam> >: ::boulder::Generator<Output = ::std::cell::RefCell<BoulderExtraGenericParam>>,

{
type Generator = Generator<::std::cell::RefCell<BoulderExtraGenericParam> >;
fn mini_generator() -> Self::Generator {
Generator::new()
}
}

impl<BoulderExtraGenericParam > NestedGenerate  for Generator<::std::cell::RefCell<BoulderExtraGenericParam> >
where
Generator<BoulderExtraGenericParam >: NestedGenerate ,

{
type Output = ::std::cell::RefCell<<Generator<BoulderExtraGenericParam > as NestedGenerate >::Output>;
fn nested_generate<BoulderFunctionParam>(gen: &mut Generator<BoulderFunctionParam >) -> Self::Output {
::std::cell::RefCell::new(Generator::<BoulderExtraGenericParam >::nested_generate(gen))
}
}

impl<BoulderExtraGenericParam > ::boulder::generator::MiniGeneratable<Rows > for ::std::sync::Mutex<BoulderExtraGenericParam>
where
BoulderExtraGenericParam: ::boulder::generator::MiniGeneratable<Rows >,
Generator<::std::sync::Mutex<BoulderExtraGenericParam> >: ::boulder::Generator<Output = ::std::sync::Mutex<BoulderExtraGenericParam>>,

{
type Generator = Generator<::std::sync::Mutex<BoulderExtraGenericParam> >;
fn mini_generator() -> Self::Generator {
Generator::new()
}
}

impl<BoulderExtraGenericParam > NestedGenerate  for Generator<::std::sync::Mutex<BoulderExtraGenericParam> >
where
Generator<BoulderExtraGenericParam >: NestedGenerate ,

{
type Output = ::std::sync::Mutex<<Generator<BoulderExtraGenericParam > as NestedGenerate >::Output>;
fn nested_generate<BoulderFunctionParam>(gen: &mut Generator<BoulderFunctionParam >) -> Self::Output {
::std::sync::Mutex::new(Generator::<BoulderExtraGenericParam >::nested_generate(gen))
}
}


pub struct Values<BoulderExtraGenericParam>(::boulder::GeneratorIterator<BoulderExtraGenericParam>);

impl<BoulderExtraGenericParam> ::std::iter::Iterator for Values<BoulderExtraGenericParam>
where
BoulderExtraGenericParam: ::boulder::Generator,
{
type Item = <BoulderExtraGenericParam as ::boulder::Generator>::Output;
fn next(&mut self) -> Option<Self::Item> {
self.0.next()
}
}

pub struct ValuesMut<'boulder_reference_lifetime, BoulderExtraGenericParam>(::boulder::GeneratorMutIterator<'boulder_reference_lifetime, BoulderExtraGenericParam>);

impl<'boulder_reference_lifetime, BoulderExtraGenericParam> ::std::iter::Iterator for ValuesMut<'boulder_reference_lifetime, BoulderExtraGenericParam>
where
BoulderExtraGenericParam: ::boulder::Generator,
{
type Item = <BoulderExtraGenericParam as ::boulder::Generator>::Output;
fn next(&mut self) -> Option<Self::Item> {
self.0.next()
}
}

impl<BoulderExtraGenericParam > ::std::iter::IntoIterator for Generator<BoulderExtraGenericParam >
where
Generator<BoulderExtraGenericParam >: ::boulder::Generator<Output = BoulderExtraGenericParam>,

{
type Item = BoulderExtraGenericParam;
type IntoIter = Values<Self>;
fn into_iter(self) -> Self::IntoIter {
Values(::boulder::GeneratorIterator::new(self))
}
}

impl<'boulder_reference_lifetime, BoulderExtraGenericParam > ::std::iter::IntoIterator for &'boulder_reference_lifetime mut Generator<BoulderExtraGenericParam >
where
Generator<BoulderExtraGenericParam >: ::boulder::Generator<Output = BoulderExtraGenericParam>,

{
type Item = BoulderExtraGenericParam;
type IntoIter = ValuesMut<'boulder_reference_lifetime, Generator<BoulderExtraGenericParam >>;
fn into_iter(self) -> Self::IntoIter {
ValuesMut(::boulder::GeneratorMutIterator::new(self))
}
}
};

#[derive(Debug, PartialEq)]
pub struct OnlyGenerator  {
    x: i32,
}

const _: () = {
pub struct Generator<BoulderTypeMarkerParam >  {
_boulder_type_marker: ::core::marker::PhantomData<BoulderTypeMarkerParam>,
x: Box<dyn ::boulder::Generator<Output = i32>>,
}

pub trait NestedGenerate   {
type Output;
fn nested_generate<BoulderFunctionParam>(gen: &mut Generator<BoulderFunctionParam >) -> Self::Output;
}

impl<BoulderTypeMarkerParam > Generator<BoulderTypeMarkerParam >  {
pub fn new() -> Self {
Self {
_boulder_type_marker: Default::default(),
x: Box::new(boulder :: Inc (40)),
}
}

pub fn x<V>(mut self, generator: V) -> Self where V: 'static + ::boulder::Generator<Output = i32> { self.x = Box::new(generator); self }
}

impl<BoulderTypeMarkerParam > ::boulder::Generator for Generator<BoulderTypeMarkerParam >
where
Self: NestedGenerate ,
BoulderTypeMarkerParam: 'static,

{
type Output = <Self as NestedGenerate >::Output;
fn generate(&mut self) -> Self::Output {
<Self as NestedGenerate >::nested_generate(self)
}
}

impl  ::boulder::generator::BoulderBase for OnlyGenerator   {
type Base = OnlyGenerator ;
}

impl  ::boulder::generator::MiniGeneratable<OnlyGenerator > for OnlyGenerator   {
type Generator = Generator<OnlyGenerator  >;
fn mini_generator() -> Self::Generator {
Generator::new()
}
}

impl  NestedGenerate  for Generator<OnlyGenerator  >  {
type Output = OnlyGenerator ;
fn nested_generate<BoulderFunctionParam>(gen: &mut Generator<BoulderFunctionParam >) -> Self::Output {
OnlyGenerator {
x: gen.x.generate(),
}
}
}

impl<BoulderExtraGenericParam > ::boulder::generator::MiniGeneratable<OnlyGenerator > for Option<BoulderExtraGenericParam>
where
BoulderExtraGenericParam: ::boulder::generator::MiniGeneratable<OnlyGenerator >,
Generator<Option<BoulderExtraGenericParam> >: ::boulder::Generator<Output = Option<BoulderExtraGenericParam>>,

{
type Generator = Generator<Option<BoulderExtraGenericParam> >;
fn mini_generator() -> Self::Generator {
Generator::new()
}
}

impl<BoulderExtraGenericParam > NestedGenerate  for Generator<Option<BoulderExtraGenericParam> >
where
Generator<BoulderExtraGenericParam >: NestedGenerate ,

{
type Output = Option<<Generator<BoulderExtraGenericParam > as NestedGenerate >::Output>;
fn nested_generate<BoulderFunctionParam>(gen: &mut Generator<BoulderFunctionParam >) -> Self::Output {
Some(Generator::<BoulderExtraGenericParam >::nested_generate(gen))
}
}

impl<BoulderExtraGenericParam > ::boulder::generator::MiniGeneratable<OnlyGenerator > for ::std::rc::Rc<BoulderExtraGenericParam>
where
BoulderExtraGenericParam: ::boulder::generator::MiniGeneratable<OnlyGenerator >,
Generator<::std::rc::Rc<BoulderExtraGenericParam> >: ::boulder::Generator<Output = ::std::rc::Rc<BoulderExtraGenericParam>>,

{
type Generator = Generator<::std::rc::Rc<BoulderExtraGenericParam> >;
fn mini_generator() -> Self::Generator {
Generator::new()
}
}

impl<BoulderExtraGenericParam > NestedGenerate  for Generator<::std::rc::Rc<BoulderExtraGenericParam> >
where
Generator<BoulderExtraGenericParam >: NestedGenerate ,

{
type Output = ::std::rc::Rc<<Generator<BoulderExtraGenericParam > as NestedGenerate >::Output>;
fn nested_generate<BoulderFunctionParam>(gen: &mut Generator<BoulderFunctionParam >) -> Self::Output {
::std::rc::Rc::new(Generator::<BoulderExtraGenericParam >::nested_generate(gen))
}
}

impl<BoulderExtraGenericParam > ::boulder::generator::MiniGeneratable<OnlyGenerator > for ::std::sync::Arc<BoulderExtraGenericParam>
where
BoulderExtraGenericParam: ::boulder::generator::MiniGeneratable<OnlyGenerator >,
Generator<::std::sync::Arc<BoulderExtraGenericParam> >: ::boulder::Generator<Output = ::std::sync::Arc<BoulderExtraGenericParam>>,

{
type Generator = Generator<::std::sync::Arc<BoulderExtraGenericParam> >;
fn mini_generator() -> Self::Generator {
Generator::new()
}
}

impl<BoulderExtraGenericParam > NestedGenerate  for Generator<::std::sync::Arc<BoulderExtraGenericParam> >
where
Generator<BoulderExtraGenericParam >: NestedGenerate ,

{
type Output = ::std::sync::Arc<<Generator<BoulderExtraGenericParam > as NestedGenerate >::Output>;
fn nested_generate<BoulderFunctionParam>(gen: &mut Generator<BoulderFunctionParam >) -> Self::Output {
::std::sync::Arc::new(Generator::<BoulderExtraGenericParam >::nested_generate(gen))
}
}

impl<BoulderExtraGenericParam > ::boulder::generator::MiniGeneratable<OnlyGenerator > for ::std::cell::Cell<BoulderExtraGenericParam>
where
BoulderExtraGenericParam: ::boulder::generator::MiniGeneratable<OnlyGenerator >,
Generator<::std::cell::Cell<BoulderExtraGenericParam> >: ::boulder::Generator<Output = ::std::cell::Cell<BoulderExtraGenericParam>>,

{
type Generator = Generator<::std::cell::Cell<BoulderExtraGenericParam> >;
fn mini_generator() -> Self::Generator {
Generator::new()
}
}

impl<BoulderExtraGenericParam > NestedGenerate  for Generator<::std::cell::Cell<BoulderExtraGenericParam> >
where
Generator<BoulderExtraGenericParam >: NestedGenerate ,

{
type Output = ::std::cell::Cell<<Generator<BoulderExtraGenericParam > as NestedGenerate >::Output>;
fn nested_generate<BoulderFunctionParam>(gen: &mut Generator<BoulderFunctionParam >) -> Self::Output {
::std::cell::Cell::new(Generator::<BoulderExtraGenericParam >::nested_generate(gen))
}
}

impl<BoulderExtraGenericParam > ::boulder::generator::MiniGeneratable<OnlyGenerator > for ::std::cell::RefCell<BoulderExtraGenericParam>
where
BoulderExtraGenericParam: ::boulder::generator::MiniGeneratable<OnlyGenerator >,
Generator<::std::cell::RefCell<BoulderExtraGenericParam> >: ::boulder::Generator<Output = ::std::cell::RefCell<BoulderExtraGenericParam>>,

{
type Generator = Generator<::std::cell::RefCell<BoulderExtraGenericParam> >;
fn mini_generator() -> Self::Generator {
Generator::new()
}
}

impl<BoulderExtraGenericParam > NestedGenerate  for Generator<::std::cell::RefCell<BoulderExtraGenericParam> >
where
Generator<BoulderExtraGenericParam >: NestedGenerate ,

{
type Output = ::std::cell::RefCell<<Generator<BoulderExtraGenericParam > as NestedGenerate >::Output>;
fn nested_generate<BoulderFunctionParam>(gen: &mut Generator<BoulderFunctionParam >) -> Self::Output {
::std::cell::RefCell::new(Generator::<BoulderExtraGenericParam >::nested_generate(gen))
}
}

impl<BoulderExtraGenericParam > ::boulder::generator::MiniGeneratable<OnlyGenerator > for ::std::sync::Mutex<BoulderExtraGenericParam>
where
BoulderExtraGenericParam: ::boulder::generator::MiniGeneratable<OnlyGenerator >,
Generator<::std::sync::Mutex<BoulderExtraGenericParam> >: ::boulder::Generator<Output = ::std::sync::Mutex<BoulderExtraGenericParam>>,

{
type Generator = Generator<::std::sync::Mutex<BoulderExtraGenericParam> >;
fn mini_generator() -> Self::Generator {
Generator::new()
}
}

impl<BoulderExtraGenericParam > NestedGenerate  for Generator<::std::sync::Mutex<BoulderExtraGenericParam> >
where
Generator<BoulderExtraGenericParam >: NestedGenerate ,

{
type Output = ::std::sync::Mutex<<Generator<BoulderExtraGenericParam > as NestedGenerate >::Output>;
fn nested_generate<BoulderFunctionParam>(gen: &mut Generator<BoulderFunctionParam >) -> Self::Output {
::std::sync::Mutex::new(Generator::<BoulderExtraGenericParam >::nested_generate(gen))
}
}


pub struct Values<BoulderExtraGenericParam>(::boulder::GeneratorIterator<BoulderExtraGenericParam>);

impl<BoulderExtraGenericParam> ::std::iter::Iterator for Values<BoulderExtraGenericParam>
where
BoulderExtraGenericParam: ::boulder::Generator,
{
type Item = <BoulderExtraGenericParam as ::boulder::Generator>::Output;
fn next(&mut self) -> Option<Self::Item> {
self.0.next()
}
}

pub struct ValuesMut<'boulder_reference_lifetime, BoulderExtraGenericParam>(::boulder::GeneratorMutIterator<'boulder_reference_lifetime, BoulderExtraGenericParam>);

impl<'boulder_reference_lifetime, BoulderExtraGenericParam> ::std::iter::Iterator for ValuesMut<'boulder_reference_lifetime, BoulderExtraGenericParam>
where
BoulderExtraGenericParam: ::boulder::Generator,
{
type Item = <BoulderExtraGenericParam as ::boulder::Generator>::Output;
fn next(&mut self) -> Option<Self::Item> {
self.0.next()
}
}

impl<BoulderExtraGenericParam > ::std::iter::IntoIterator for Generator<BoulderExtraGenericParam >
where
Generator<BoulderExtraGenericParam >: ::boulder::Generator<Output = BoulderExtraGenericParam>,

{
type Item = BoulderExtraGenericParam;
type IntoIter = Values<Self>;
fn into_iter(self) -> Self::IntoIter {
Values(::boulder::GeneratorIterator::new(self))
}
}

impl<'boulder_reference_lifetime, BoulderExtraGenericParam > ::std::iter::IntoIterator for &'boulder_reference_lifetime mut Generator<BoulderExtraGenericParam >
where
Generator<BoulderExtraGenericParam >: ::boulder::Generator<Output = BoulderExtraGenericParam>,

{
type Item = BoulderExtraGenericParam;
type IntoIter = ValuesMut<'boulder_reference_lifetime, Generator<BoulderExtraGenericParam >>;
fn into_iter(self) -> Self::IntoIter {
ValuesMut(::boulder::GeneratorMutIterator::new(self))
}
}
};

#[derive(Debug)]
 struct Counted<C: 'static>  {
    _marker: core::marker::PhantomData<C>,
    seen: usize,
}

const _: () = {
 struct Builder<BoulderTypeMarkerParam , C: 'static>  {
_boulder_created_marker: ::core::marker::PhantomData<BoulderTypeMarkerParam>,
_marker: Option<core::marker::PhantomData<C>>,
seen: Option<usize>,
}


impl<BoulderTypeMarkerParam , C: 'static> Builder<BoulderTypeMarkerParam , C>  {
pub fn new() -> Self {
Self {
_boulder_created_marker: Default::default(),
_marker: ::std::default::Default::default(),
seen: ::std::default::Default::default(),
}
}

fn change_type<BoulderFunctionTypeParam>(self) -> Builder<BoulderFunctionTypeParam , C> {
Builder {
_boulder_created_marker: Default::default(),
_marker: self._marker,
seen: self.seen,
}
}

pub fn _marker<S>(mut self, value: S) -> Self where S: Into<core::marker::PhantomData<C>> { self._marker = Some(value.into()); self }
pub fn seen<S>(mut self, value: S) -> Self where S: Into<usize> { self.seen = Some(value.into()); self }
}

impl <C: 'static, > ::boulder::persian_rug::builder::BoulderBase for Counted <C, >  {
type Base = Counted <C, >;
}

impl <C: 'static, > ::boulder::persian_rug::builder::MiniBuildableWithPersianRug<Counted <C, >, C> for Counted <C, >
where
C: ::boulder::persian_rug::Owner<Counted < C >>, 
{
type Builder = Builder<Counted <C, > , C>;
fn mini_builder() -> Self::Builder {
Builder::new()
}
}

impl <C: 'static, > ::boulder::BuilderWithPersianRug<C> for Builder<Counted <C, > , C>
where
C: ::boulder::persian_rug::Owner<Counted < C >>, 
{
type Result = Counted <C, >;
fn build(self, mut context: C) -> (Self::Result, C) {
let _marker = self._marker.unwrap_or_default();
let (seen, mut context) = if let Some(value) = self.seen { (value, context) } else { let closure = { | context : C | { let n = :: boulder :: persian_rug :: Owner :: < Counted < C >> :: get_proxies (& context) . len () ; (n , context) } }; closure(context) };
(
Counted {
_marker,
seen,
},
context
)
}
}

impl<BoulderExtraGenericParam , C: 'static> ::boulder::persian_rug::builder::MiniBuildableWithPersianRug<Counted <C, >, C> for Option<BoulderExtraGenericParam>
where
BoulderExtraGenericParam: ::boulder::persian_rug::builder::MiniBuildableWithPersianRug<Counted <C, >, C>,
Builder<BoulderExtraGenericParam , C>: ::boulder::BuilderWithPersianRug<C, Result = BoulderExtraGenericParam>,
C: ::boulder::persian_rug::Owner<Counted < C >>, 
{
type Builder = Builder<Option<BoulderExtraGenericParam> , C>;
fn mini_builder() -> Self::Builder {
Builder::new()
}
}

impl<BoulderExtraGenericParam , C: 'static> ::boulder::BuilderWithPersianRug<C> for Builder<Option<BoulderExtraGenericParam> , C>
where
Builder<BoulderExtraGenericParam , C>: ::boulder::BuilderWithPersianRug<C, Result = BoulderExtraGenericParam>,
C: ::boulder::persian_rug::Owner<Counted < C >>, 
{
type Result = Option<BoulderExtraGenericParam>;
fn build(self, context: C) -> (Self::Result, C) {
let (result, mut context) = <Builder<BoulderExtraGenericParam , C> as ::boulder::BuilderWithPersianRug<C>>::build(self.change_type(), context);
(Some(result), context)
}
}

impl<BoulderExtraGenericParam , C: 'static> ::boulder::persian_rug::builder::MiniBuildableWithPersianRug<Counted <C, >, C> for ::boulder::persian_rug::Proxy<BoulderExtraGenericParam>
where
BoulderExtraGenericParam: ::boulder::persian_rug::builder::MiniBuildableWithPersianRug<Counted <C, >, C>,
Builder<BoulderExtraGenericParam , C>: ::boulder::BuilderWithPersianRug<C, Result = BoulderExtraGenericParam>,
C: ::boulder::persian_rug::Owner<BoulderExtraGenericParam>, C: ::boulder::persian_rug::Owner<Counted < C >>, 
{
type Builder = Builder<::boulder::persian_rug::Proxy<BoulderExtraGenericParam> , C>;
fn mini_builder() -> Self::Builder {
Builder::new()
}
}

impl<BoulderExtraGenericParam , C: 'static> ::boulder::BuilderWithPersianRug<C> for Builder<::boulder::persian_rug::Proxy<BoulderExtraGenericParam> , C>
where
Builder<BoulderExtraGenericParam , C>: ::boulder::BuilderWithPersianRug<C, Result = BoulderExtraGenericParam>,
C: ::boulder::persian_rug::Owner<BoulderExtraGenericParam>, C: ::boulder::persian_rug::Owner<Counted < C >>, 
{
type Result = ::boulder::persian_rug::Proxy<BoulderExtraGenericParam>;
fn build(self, context: C) -> (Self::Result, C) {
let (result, mut context) = <Builder<BoulderExtraGenericParam , C> as ::boulder::BuilderWithPersianRug<C>>::build(self.change_type(), context);
(::boulder::persian_rug::Owner::add(&mut context, result), context)
}
}

impl<BoulderExtraGenericParam , C: 'static> ::boulder::persian_rug::builder::MiniBuildableWithPersianRug<Counted <C, >, C> for ::std::rc::Rc<BoulderExtraGenericParam>
where
BoulderExtraGenericParam: ::boulder::persian_rug::builder::MiniBuildableWithPersianRug<Counted <C, >, C>,
Builder<BoulderExtraGenericParam , C>: ::boulder::BuilderWithPersianRug<C, Result = BoulderExtraGenericParam>,
C: ::boulder::persian_rug::Owner<Counted < C >>, 
{
type Builder = Builder<::std::rc::Rc<BoulderExtraGenericParam> , C>;
fn mini_builder() -> Self::Builder {
Builder::new()
}
}

impl<BoulderExtraGenericParam , C: 'static> ::boulder::BuilderWithPersianRug<C> for Builder<::std::rc::Rc<BoulderExtraGenericParam> , C>
where
Builder<BoulderExtraGenericParam , C>: ::boulder::BuilderWithPersianRug<C, Result = BoulderExtraGenericParam>,
C: ::boulder::persian_rug::Owner<Counted < C >>, 
{
type Result = ::std::rc::Rc<BoulderExtraGenericParam>;
fn build(self, context: C) -> (Self::Result, C) {
let (result, mut context) = <Builder<BoulderExtraGenericParam , C> as ::boulder::BuilderWithPersianRug<C>>::build(self.change_type(), context);
(::std::rc::Rc::new(result), context)
}
}

impl<BoulderExtraGenericParam , C: 'static> ::boulder::persian_rug::builder::MiniBuildableWithPersianRug<Counted <C, >, C> for ::std::sync::Arc<BoulderExtraGenericParam>
where
BoulderExtraGenericParam: ::boulder::persian_rug::builder::MiniBuildableWithPersianRug<Counted <C, >, C>,
Builder<BoulderExtraGenericParam , C>: ::boulder::BuilderWithPersianRug<C, Result = BoulderExtraGenericParam>,
C: ::boulder::persian_rug::Owner<Counted < C >>, 
{
type Builder = Builder<::std::sync::Arc<BoulderExtraGenericParam> , C>;
fn mini_builder() -> Self::Builder {
Builder::new()
}
}

impl<BoulderExtraGenericParam , C: 'static> ::boulder::BuilderWithPersianRug<C> for Builder<::std::sync::Arc<BoulderExtraGenericParam> , C>
where
Builder<BoulderExtraGenericParam , C>: ::boulder::BuilderWithPersianRug<C, Result = BoulderExtraGenericParam>,
C: ::boulder::persian_rug::Owner<Counted < C >>, 
{
type Result = ::std::sync::Arc<BoulderExtraGenericParam>;
fn build(self, context: C) -> (Self::Result, C) {
let (result, mut context) = <Builder<BoulderExtraGenericParam , C> as ::boulder::BuilderWithPersianRug<C>>::build(self.change_type(), context);
(::std::sync::Arc::new(result), context)
}
}

impl<BoulderExtraGenericParam , C: 'static> ::boulder::persian_rug::builder::MiniBuildableWithPersianRug<Counted <C, >, C> for ::std::cell::Cell<BoulderExtraGenericParam>
where
BoulderExtraGenericParam: ::boulder::persian_rug::builder::MiniBuildableWithPersianRug<Counted <C, >, C>,
Builder<BoulderExtraGenericParam , C>: ::boulder::BuilderWithPersianRug<C, Result = BoulderExtraGenericParam>,
C: ::boulder::persian_rug::Owner<Counted < C >>, 
{
type Builder = Builder<::std::cell::Cell<BoulderExtraGenericParam> , C>;
fn mini_builder() -> Self::Builder {
Builder::new()
}
}

impl<BoulderExtraGenericParam , C: 'static> ::boulder::BuilderWithPersianRug<C> for Builder<::std::cell::Cell<BoulderExtraGenericParam> , C>
where
Builder<BoulderExtraGenericParam , C>: ::boulder::BuilderWithPersianRug<C, Result = BoulderExtraGenericParam>,
C: ::boulder::persian_rug::Owner<Counted < C >>, 
{
type Result = ::std::cell::Cell<BoulderExtraGenericParam>;
fn build(self, context: C) -> (Self::Result, C) {
let (result, mut context) = <Builder<BoulderExtraGenericParam , C> as ::boulder::BuilderWithPersianRug<C>>::build(self.change_type(), context);
(::std::cell::Cell::new(result), context)
}
}

impl<BoulderExtraGenericParam , C: 'static> ::boulder::persian_rug::builder::MiniBuildableWithPersianRug<Counted <C, >, C> for ::std::cell::RefCell<BoulderExtraGenericParam>
where
BoulderExtraGenericParam: ::boulder::persian_rug::builder::MiniBuildableWithPersianRug<Counted <C, >, C>,
Builder<BoulderExtraGenericParam , C>: ::boulder::BuilderWithPersianRug<C, Result = BoulderExtraGenericParam>,
C: ::boulder::persian_rug::Owner<Counted < C >>, 
{
type Builder = Builder<::std::cell::RefCell<BoulderExtraGenericParam> , C>;
fn mini_builder() -> Self::Builder {
Builder::new()
}
}

impl<BoulderExtraGenericParam , C: 'static> ::boulder::BuilderWithPersianRug<C> for Builder<::std::cell::RefCell<BoulderExtraGenericParam> , C>
where
Builder<BoulderExtraGenericParam , C>: ::boulder::BuilderWithPersianRug<C, Result = BoulderExtraGenericParam>,
C: ::boulder::persian_rug::Owner<Counted < C >>, 
{
type Result = ::std::cell::RefCell<BoulderExtraGenericParam>;
fn build(self, context: C) -> (Self::Result, C) {
let (result, mut context) = <Builder<BoulderExtraGenericParam , C> as ::boulder::BuilderWithPersianRug<C>>::build(self.change_type(), context);
(::std::cell::RefCell::new(result), context)
}
}

impl<BoulderExtraGenericParam , C: 'static> ::boulder::persian_rug::builder::MiniBuildableWithPersianRug<Counted <C, >, C> for ::std::sync::Mutex<BoulderExtraGenericParam>
where
BoulderExtraGenericParam: ::boulder::persian_rug::builder::MiniBuildableWithPersianRug<Counted <C, >, C>,
Builder<BoulderExtraGenericParam , C>: ::boulder::BuilderWithPersianRug<C, Result = BoulderExtraGenericParam>,
C: ::boulder::persian_rug::Owner<Counted < C >>, 
{
type Builder = Builder<::std::sync::Mutex<BoulderExtraGenericParam> , C>;
fn mini_builder() -> Self::Builder {
Builder::new()
}
}

impl<BoulderExtraGenericParam , C: 'static> ::boulder::BuilderWithPersianRug<C> for Builder<::std::sync::Mutex<BoulderExtraGenericParam> , C>
where
Builder<BoulderExtraGenericParam , C>: ::boulder::BuilderWithPersianRug<C, Result = BoulderExtraGenericParam>,
C: ::boulder::persian_rug::Owner<Counted < C >>, 
{
type Result = ::std::sync::Mutex<BoulderExtraGenericParam>;
fn build(self, context: C) -> (Self::Result, C) {
let (result, mut context) = <Builder<BoulderExtraGenericParam , C> as ::boulder::BuilderWithPersianRug<C>>::build(self.change_type(), context);
(::std::sync::Mutex::new(result), context)
}
}

};

#[derive(Debug, PartialEq)]
 struct Item  {
    a: i32,
    b: i32,
}

const _: () = {
 struct Builder<BoulderTypeMarkerParam >  {
_boulder_created_marker: ::core::marker::PhantomData<BoulderTypeMarkerParam>,
a: Option<i32>,
b: Option<i32>,
}


impl<BoulderTypeMarkerParam > Builder<BoulderTypeMarkerParam >  {
pub fn new() -> Self {
Self {
_boulder_created_marker: Default::default(),
a: ::std::default::Default::default(),
b: ::std::default::Default::default(),
}
}

fn change_type<BoulderFunctionTypeParam>(self) -> Builder<BoulderFunctionTypeParam > {
Builder {
_boulder_created_marker: Default::default(),
a: self.a,
b: self.b,
}
}

pub fn a<S>(mut self, value: S) -> Self where S: Into<i32> { self.a = Some(value.into()); self }
pub fn b<S>(mut self, value: S) -> Self where S: Into<i32> { self.b = Some(value.into()); self }
}

impl  ::boulder::persian_rug::builder::BoulderBase for Item   {
type Base = Item ;
}

impl  ::boulder::persian_rug::builder::MiniBuildableWithPersianRug<Item , Shelf> for Item 
where
Shelf: ::boulder::persian_rug::Owner<Item>, 
{
type Builder = Builder<Item  >;
fn mini_builder() -> Self::Builder {
Builder::new()
}
}

impl  ::boulder::BuilderWithPersianRug<Shelf> for Builder<Item  >
where
Shelf: ::boulder::persian_rug::Owner<Item>, 
{
type Result = Item ;
fn build(self, mut context: Shelf) -> (Self::Result, Shelf) {
let a = self.a.unwrap_or_else(|| (1).into());
let b = self.b.unwrap_or_else(|| (2).into());
(
Item {
a,
b,
},
context
)
}
}

impl<BoulderExtraGenericParam > ::boulder::persian_rug::builder::MiniBuildableWithPersianRug<Item , Shelf> for Option<BoulderExtraGenericParam>
where
BoulderExtraGenericParam: ::boulder::persian_rug::builder::MiniBuildableWithPersianRug<Item , Shelf>,
Builder<BoulderExtraGenericParam >: ::boulder::BuilderWithPersianRug<Shelf, Result = BoulderExtraGenericParam>,
Shelf: ::boulder::persian_rug::Owner<Item>, 
{
type Builder = Builder<Option<BoulderExtraGenericParam> >;
fn mini_builder() -> Self::Builder {
Builder::new()
}
}

impl<BoulderExtraGenericParam > ::boulder::BuilderWithPersianRug<Shelf> for Builder<Option<BoulderExtraGenericParam> >
where
Builder<BoulderExtraGenericParam >: ::boulder::BuilderWithPersianRug<Shelf, Result = BoulderExtraGenericParam>,
Shelf: ::boulder::persian_rug::Owner<Item>, 
{
type Result = Option<BoulderExtraGenericParam>;
fn build(self, context: Shelf) -> (Self::Result, Shelf) {
let (result, mut context) = <Builder<BoulderExtraGenericParam > as ::boulder::BuilderWithPersianRug<Shelf>>::build(self.change_type(), context);
(Some(result), context)
}
}

impl<BoulderExtraGenericParam > ::boulder::persian_rug::builder::MiniBuildableWithPersianRug<Item , Shelf> for ::boulder::persian_rug::Proxy<BoulderExtraGenericParam>
where
BoulderExtraGenericParam: ::boulder::persian_rug::builder::MiniBuildableWithPersianRug<Item , Shelf>,
Builder<BoulderExtraGenericParam >: ::boulder::BuilderWithPersianRug<Shelf, Result = BoulderExtraGenericParam>,
Shelf: ::boulder::persian_rug::Owner<BoulderExtraGenericParam>, Shelf: ::boulder::persian_rug::Owner<Item>, 
{
type Builder = Builder<::boulder::persian_rug::Proxy<BoulderExtraGenericParam> >;
fn mini_builder() -> Self::Builder {
Builder::new()
}
}

impl<BoulderExtraGenericParam > ::boulder::BuilderWithPersianRug<Shelf> for Builder<::boulder::persian_rug::Proxy<BoulderExtraGenericParam> >
where
Builder<BoulderExtraGenericParam >: ::boulder::BuilderWithPersianRug<Shelf, Result = BoulderExtraGenericParam>,
Shelf: ::boulder::persian_rug::Owner<BoulderExtraGenericParam>, Shelf: ::boulder::persian_rug::Owner<Item>, 
{
type Result = ::boulder::persian_rug::Proxy<BoulderExtraGenericParam>;
fn build(self, context: Shelf) -> (Self::Result, Shelf) {
let (result, mut context) = <Builder<BoulderExtraGenericParam > as ::boulder::BuilderWithPersianRug<Shelf>>::build(self.change_type(), context);
(::boulder::persian_rug::Owner::add(&mut context, result), context)
}
}

impl<BoulderExtraGenericParam > ::boulder::persian_rug::builder::MiniBuildableWithPersianRug<Item , Shelf> for ::std::rc::Rc<BoulderExtraGenericParam>
where
BoulderExtraGenericParam: ::boulder::persian_rug::builder::MiniBuildableWithPersianRug<Item , Shelf>,
Builder<BoulderExtraGenericParam >: ::boulder::BuilderWithPersianRug<Shelf, Result = BoulderExtraGenericParam>,
Shelf: ::boulder::persian_rug::Owner<Item>, 
{
type Builder = Builder<::std::rc::Rc<BoulderExtraGenericParam> >;
fn mini_builder() -> Self::Builder {
Builder::new()
}
}

impl<BoulderExtraGenericParam > ::boulder::BuilderWithPersianRug<Shelf> for Builder<::std::rc::Rc<BoulderExtraGenericParam> >
where
Builder<BoulderExtraGenericParam >: ::boulder::BuilderWithPersianRug<Shelf, Result = BoulderExtraGenericParam>,
Shelf: ::boulder::persian_rug::Owner<Item>, 
{
type Result = ::std::rc::Rc<BoulderExtraGenericParam>;
fn build(self, context: Shelf) -> (Self::Result, Shelf) {
let (result, mut context) = <Builder<BoulderExtraGenericParam > as ::boulder::BuilderWithPersianRug<Shelf>>::build(self.change_type(), context);
(::std::rc::Rc::new(result), context)
}
}

impl<BoulderExtraGenericParam > ::boulder::persian_rug::builder::MiniBuildableWithPersianRug<Item , Shelf> for ::std::sync::Arc<BoulderExtraGenericParam>
where
BoulderExtraGenericParam: ::boulder::persian_rug::builder::MiniBuildableWithPersianRug<Item , Shelf>,
Builder<BoulderExtraGenericParam >: ::boulder::BuilderWithPersianRug<Shelf, Result = BoulderExtraGenericParam>,
Shelf: ::boulder::persian_rug::Owner<Item>, 
{
type Builder = Builder<::std::sync::Arc<BoulderExtraGenericParam> >;
fn mini_builder() -> Self::Builder {
Builder::new()
}
}

impl<BoulderExtraGenericParam > ::boulder::BuilderWithPersianRug<Shelf> for Builder<::std::sync::Arc<BoulderExtraGenericParam> >
where
Builder<BoulderExtraGenericParam >: ::boulder::BuilderWithPersianRug<Shelf, Result = BoulderExtraGenericParam>,
Shelf: ::boulder::persian_rug::Owner<Item>, 
{
type Result = ::std::sync::Arc<BoulderExtraGenericParam>;
fn build(self, context: Shelf) -> (Self::Result, Shelf) {
let (result, mut context) = <Builder<BoulderExtraGenericParam > as ::boulder::BuilderWithPersianRug<Shelf>>::build(self.change_type(), context);
(::std::sync::Arc::new(result), context)
}
}

impl<BoulderExtraGenericParam > ::boulder::persian_rug::builder::MiniBuildableWithPersianRug<Item , Shelf> for ::std::cell::Cell<BoulderExtraGenericParam>
where
BoulderExtraGenericParam: ::boulder::persian_rug::builder::MiniBuildableWithPersianRug<Item , Shelf>,
Builder<BoulderExtraGenericParam >: ::boulder::BuilderWithPersianRug<Shelf, Result = BoulderExtraGenericParam>,
Shelf: ::boulder::persian_rug::Owner<Item>, 
{
type Builder = Builder<::std::cell::Cell<BoulderExtraGenericParam> >;
fn mini_builder() -> Self::Builder {
Builder::new()
}
}

impl<BoulderExtraGenericParam > ::boulder::BuilderWithPersianRug<Shelf> for Builder<::std::cell::Cell<BoulderExtraGenericParam> >
where
Builder<BoulderExtraGenericParam >: ::boulder::BuilderWithPersianRug<Shelf, Result = BoulderExtraGenericParam>,
Shelf: ::boulder::persian_rug::Owner<Item>, 
{
type Result = ::std::cell::Cell<BoulderExtraGenericParam>;
fn build(self, context: Shelf) -> (Self::Result, Shelf) {
let (result, mut context) = <Builder<BoulderExtraGenericParam > as ::boulder::BuilderWithPersianRug<Shelf>>::build(self.change_type(), context);
(::std::cell::Cell::new(result), context)
}
}

impl<BoulderExtraGenericParam > ::boulder::persian_rug::builder::MiniBuildableWithPersianRug<Item , Shelf> for ::std::cell::RefCell<BoulderExtraGenericParam>
where
BoulderExtraGenericParam: ::boulder::persian_rug::builder::MiniBuildableWithPersianRug<Item , Shelf>,
Builder<BoulderExtraGenericParam >: ::boulder::BuilderWithPersianRug<Shelf, Result = BoulderExtraGenericParam>,
Shelf: ::boulder::persian_rug::Owner<Item>, 
{
type Builder = Builder<::std::cell::RefCell<BoulderExtraGenericParam> >;
fn mini_builder() -> Self::Builder {
Builder::new()
}
}

impl<BoulderExtraGenericParam > ::boulder::BuilderWithPersianRug<Shelf> for Builder<::std::cell::RefCell<BoulderExtraGenericParam> >
where
Builder<BoulderExtraGenericParam >: ::boulder::BuilderWithPersianRug<Shelf, Result = BoulderExtraGenericParam>,
Shelf: ::boulder::persian_rug::Owner<Item>, 
{
type Result = ::std::cell::RefCell<BoulderExtraGenericParam>;
fn build(self, context: Shelf) -> (Self::Result, Shelf) {
let (result, mut context) = <Builder<BoulderExtraGenericParam > as ::boulder::BuilderWithPersianRug<Shelf>>::build(self.change_type(), context);
(::std::cell::RefCell::new(result), context)
}
}

impl<BoulderExtraGenericParam > ::boulder::persian_rug::builder::MiniBuildableWithPersianRug<Item , Shelf> for ::std::sync::Mutex<BoulderExtraGenericParam>
where
BoulderExtraGenericParam: ::boulder::persian_rug::builder::MiniBuildableWithPersianRug<Item , Shelf>,
Builder<BoulderExtraGenericParam >: ::boulder::BuilderWithPersianRug<Shelf, Result = BoulderExtraGenericParam>,
Shelf: ::boulder::persian_rug::Owner<Item>, 
{
type Builder = Builder<::std::sync::Mutex<BoulderExtraGenericParam> >;
fn mini_builder() -> Self::Builder {
Builder::new()
}
}

impl<BoulderExtraGenericParam > ::boulder::BuilderWithPersianRug<Shelf> for Builder<::std::sync::Mutex<BoulderExtraGenericParam> >
where
Builder<BoulderExtraGenericParam >: ::boulder::BuilderWithPersianRug<Shelf, Result = BoulderExtraGenericParam>,
Shelf: ::boulder::persian_rug::Owner<Item>, 
{
type Result = ::std::sync::Mutex<BoulderExtraGenericParam>;
fn build(self, context: Shelf) -> (Self::Result, Shelf) {
let (result, mut context) = <Builder<BoulderExtraGenericParam > as ::boulder::BuilderWithPersianRug<Shelf>>::build(self.change_type(), context);
(::std::sync::Mutex::new(result), context)
}
}

};

#[derive(Debug)]
 struct Holder  {
    first: Proxy<Item>,
    second: Proxy<Item>,
    many: Vec<Proxy<Item>>,
}

const _: () = {
 struct Builder<BoulderTypeMarkerParam >  {
_boulder_created_marker: ::core::marker::PhantomData<BoulderTypeMarkerParam>,
first: Option<Proxy<Item>>,
second: Option<Proxy<Item>>,
many: Option<Vec<Proxy<Item>>>,
}

struct BoulderDefaultGenerator_many  {
_marker: ::core::marker::PhantomData<Holder >,
}

impl  ::boulder::GeneratorWithPersianRug<Shelf> for BoulderDefaultGenerator_many 
where
Shelf: ::boulder::persian_rug::Owner<Item>, Shelf: ::boulder::persian_rug::Owner<Holder>, 
{
type Output = <Vec<Proxy<Item>> as ::std::iter::IntoIterator>::Item;
fn generate(&mut self, context: Shelf) -> (Self::Output, Shelf) {
<<<Vec<Proxy<Item>> as ::std::iter::IntoIterator>::Item as ::boulder::BuildableWithPersianRug<Shelf>>::Builder as ::boulder::BuilderWithPersianRug<Shelf>>::build(<<Vec<Proxy<Item>> as ::std::iter::IntoIterator>::Item as ::boulder::BuildableWithPersianRug<Shelf>>::builder().a(0), context)
}
}


impl<BoulderTypeMarkerParam > Builder<BoulderTypeMarkerParam >  {
pub fn new() -> Self {
Self {
_boulder_created_marker: Default::default(),
first: ::std::default::Default::default(),
second: ::std::default::Default::default(),
many: ::std::default::Default::default(),
}
}

fn change_type<BoulderFunctionTypeParam>(self) -> Builder<BoulderFunctionTypeParam > {
Builder {
_boulder_created_marker: Default::default(),
first: self.first,
second: self.second,
many: self.many,
}
}

pub fn first<S>(mut self, value: S) -> Self where S: Into<Proxy<Item>> { self.first = Some(value.into()); self }
pub fn second<S>(mut self, value: S) -> Self where S: Into<Proxy<Item>> { self.second = Some(value.into()); self }
pub fn many<S>(mut self, value: S) -> Self where S: Into<Vec<Proxy<Item>>> { self.many = Some(value.into()); self }
}

impl  ::boulder::persian_rug::builder::BoulderBase for Holder   {
type Base = Holder ;
}

impl  ::boulder::persian_rug::builder::MiniBuildableWithPersianRug<Holder , Shelf> for Holder 
where
Shelf: ::boulder::persian_rug::Owner<Item>, Shelf: ::boulder::persian_rug::Owner<Holder>, 
{
type Builder = Builder<Holder  >;
fn mini_builder() -> Self::Builder {
Builder::new()
}
}

impl  ::boulder::BuilderWithPersianRug<Shelf> for Builder<Holder  >
where
Shelf: ::boulder::persian_rug::Owner<Item>, Shelf: ::boulder::persian_rug::Owner<Holder>, 
{
type Result = Holder ;
fn build(self, mut context: Shelf) -> (Self::Result, Shelf) {
let (first, mut context) = if let Some(value) = self.first { (value, context) } else { <<Proxy<Item> as ::boulder::BuildableWithPersianRug<Shelf>>::Builder as ::boulder::BuilderWithPersianRug<Shelf>>::build(<Proxy<Item> as ::boulder::BuildableWithPersianRug<Shelf>>::builder().a(5), context) };
let (second, mut context) = if let Some(value) = self.second { (value, context) } else { <<Proxy<Item> as ::boulder::BuildableWithPersianRug<Shelf>>::Builder as ::boulder::BuilderWithPersianRug<Shelf>>::build(<Proxy<Item> as ::boulder::BuildableWithPersianRug<Shelf>>::builder().a(4).b(6), context) };
let (many, mut context) = if let Some(value) = self.many { (value, context) } else { let closure = { | context : Shelf | { let n = :: boulder :: persian_rug :: Owner :: < Item > :: get_proxies (& context) . len () ; (n , context) } }; let (count, mut context) = closure(context); let mut gen = BoulderDefaultGenerator_many { _marker: Default::default() }; let mut iter = ::boulder::GeneratorWithPersianRugIterator::new(gen, context); let mut storage = Vec::new(); for _ in 0..count { storage.push(iter.next().unwrap()); } let (gen, context) = iter.into_inner(); let value = storage.into_iter().collect(); (value, context) };
(
Holder {
first,
second,
many,
},
context
)
}
}

impl<BoulderExtraGenericParam > ::boulder::persian_rug::builder::MiniBuildableWithPersianRug<Holder , Shelf> for Option<BoulderExtraGenericParam>
where
BoulderExtraGenericParam: ::boulder::persian_rug::builder::MiniBuildableWithPersianRug<Holder , Shelf>,
Builder<BoulderExtraGenericParam >: ::boulder::BuilderWithPersianRug<Shelf, Result = BoulderExtraGenericParam>,
Shelf: ::boulder::persian_rug::Owner<Item>, Shelf: ::boulder::persian_rug::Owner<Holder>, 
{
type Builder = Builder<Option<BoulderExtraGenericParam> >;
fn mini_builder() -> Self::Builder {
Builder::new()
}
}

impl<BoulderExtraGenericParam > ::boulder::BuilderWithPersianRug<Shelf> for Builder<Option<BoulderExtraGenericParam> >
where
Builder<BoulderExtraGenericParam >: ::boulder::BuilderWithPersianRug<Shelf, Result = BoulderExtraGenericParam>,
Shelf: ::boulder::persian_rug::Owner<Item>, Shelf: ::boulder::persian_rug::Owner<Holder>, 
{
type Result = Option<BoulderExtraGenericParam>;
fn build(self, context: Shelf) -> (Self::Result, Shelf) {
let (result, mut context) = <Builder<BoulderExtraGenericParam > as ::boulder::BuilderWithPersianRug<Shelf>>::build(self.change_type(), context);
(Some(result), context)
}
}

impl<BoulderExtraGenericParam > ::boulder::persian_rug::builder::MiniBuildableWithPersianRug<Holder , Shelf> for ::boulder::persian_rug::Proxy<BoulderExtraGenericParam>
where
BoulderExtraGenericParam: ::boulder::persian_rug::builder::MiniBuildableWithPersianRug<Holder , Shelf>,
Builder<BoulderExtraGenericParam >: ::boulder::BuilderWithPersianRug<Shelf, Result = BoulderExtraGenericParam>,
Shelf: ::boulder::persian_rug::Owner<BoulderExtraGenericParam>, Shelf: ::boulder::persian_rug::Owner<Item>, Shelf: ::boulder::persian_rug::Owner<Holder>, 
{
type Builder = Builder<::boulder::persian_rug::Proxy<BoulderExtraGenericParam> >;
fn mini_builder() -> Self::Builder {
Builder::new()
}
}

impl<BoulderExtraGenericParam > ::boulder::BuilderWithPersianRug<Shelf> for Builder<::boulder::persian_rug::Proxy<BoulderExtraGenericParam> >
where
Builder<BoulderExtraGenericParam >: ::boulder::BuilderWithPersianRug<Shelf, Result = BoulderExtraGenericParam>,
Shelf: ::boulder::persian_rug::Owner<BoulderExtraGenericParam>, Shelf: ::boulder::persian_rug::Owner<Item>, Shelf: ::boulder::persian_rug::Owner<Holder>, 
{
type Result = ::boulder::persian_rug::Proxy<BoulderExtraGenericParam>;
fn build(self, context: Shelf) -> (Self::Result, Shelf) {
let (result, mut context) = <Builder<BoulderExtraGenericParam > as ::boulder::BuilderWithPersianRug<Shelf>>::build(self.change_type(), context);
(::boulder::persian_rug::Owner::add(&mut context, result), context)
}
}

impl<BoulderExtraGenericParam > ::boulder::persian_rug::builder::MiniBuildableWithPersianRug<Holder , Shelf> for ::std::rc::Rc<BoulderExtraGenericParam>
where
BoulderExtraGenericParam: ::boulder::persian_rug::builder::MiniBuildableWithPersianRug<Holder , Shelf>,
Builder<BoulderExtraGenericParam >: ::boulder::BuilderWithPersianRug<Shelf, Result = BoulderExtraGenericParam>,
Shelf: ::boulder::persian_rug::Owner<Item>, Shelf: ::boulder::persian_rug::Owner<Holder>, 
{
type Builder = Builder<::std::rc::Rc<BoulderExtraGenericParam> >;
fn mini_builder() -> Self::Builder {
Builder::new()
}
}

impl<BoulderExtraGenericParam > ::boulder::BuilderWithPersianRug<Shelf> for Builder<::std::rc::Rc<BoulderExtraGenericParam> >
where
Builder<BoulderExtraGenericParam >: ::boulder::BuilderWithPersianRug<Shelf, Result = BoulderExtraGenericParam>,
Shelf: ::boulder::persian_rug::Owner<Item>, Shelf: ::boulder::persian_rug::Owner<Holder>, 
{
type Result = ::std::rc::Rc<BoulderExtraGenericParam>;
fn build(self, context: Shelf) -> (Self::Result, Shelf) {
let (result, mut context) = <Builder<BoulderExtraGenericParam > as ::boulder::BuilderWithPersianRug<Shelf>>::build(self.change_type(), context);
(::std::rc::Rc::new(result), context)
}
}

impl<BoulderExtraGenericParam > ::boulder::persian_rug::builder::MiniBuildableWithPersianRug<Holder , Shelf> for ::std::sync::Arc<BoulderExtraGenericParam>
where
BoulderExtraGenericParam: ::boulder::persian_rug::builder::MiniBuildableWithPersianRug<Holder , Shelf>,
Builder<BoulderExtraGenericParam >: ::boulder::BuilderWithPersianRug<Shelf, Result = BoulderExtraGenericParam>,
Shelf: ::boulder::persian_rug::Owner<Item>, Shelf: ::boulder::persian_rug::Owner<Holder>, 
{
type Builder = Builder<::std::sync::Arc<BoulderExtraGenericParam> >;
fn mini_builder() -> Self::Builder {
Builder::new()
}
}

impl<BoulderExtraGenericParam > ::boulder::BuilderWithPersianRug<Shelf> for Builder<::std::sync::Arc<BoulderExtraGenericParam> >
where
Builder<BoulderExtraGenericParam >: ::boulder::BuilderWithPersianRug<Shelf, Result = BoulderExtraGenericParam>,
Shelf: ::boulder::persian_rug::Owner<Item>, Shelf: ::boulder::persian_rug::Owner<Holder>, 
{
type Result = ::std::sync::Arc<BoulderExtraGenericParam>;
fn build(self, context: Shelf) -> (Self::Result, Shelf) {
let (result, mut context) = <Builder<BoulderExtraGenericParam > as ::boulder::BuilderWithPersianRug<Shelf>>::build(self.change_type(), context);
(::std::sync::Arc::new(result), context)
}
}

impl<BoulderExtraGenericParam > ::boulder::persian_rug::builder::MiniBuildableWithPersianRug<Holder , Shelf> for ::std::cell::Cell<BoulderExtraGenericParam>
where
BoulderExtraGenericParam: ::boulder::persian_rug::builder::MiniBuildableWithPersianRug<Holder , Shelf>,
Builder<BoulderExtraGenericParam >: ::boulder::BuilderWithPersianRug<Shelf, Result = BoulderExtraGenericParam>,
Shelf: ::boulder::persian_rug::Owner<Item>, Shelf: ::boulder::persian_rug::Owner<Holder>, 
{
type Builder = Builder<::std::cell::Cell<BoulderExtraGenericParam> >;
fn mini_builder() -> Self::Builder {
Builder::new()
}
}

impl<BoulderExtraGenericParam > ::boulder::BuilderWithPersianRug<Shelf> for Builder<::std::cell::Cell<BoulderExtraGenericParam> >
where
Builder<BoulderExtraGenericParam >: ::boulder::BuilderWithPersianRug<Shelf, Result = BoulderExtraGenericParam>,
Shelf: ::boulder::persian_rug::Owner<Item>, Shelf: ::boulder::persian_rug::Owner<Holder>, 
{
type Result = ::std::cell::Cell<BoulderExtraGenericParam>;
fn build(self, context: Shelf) -> (Self::Result, Shelf) {
let (result, mut context) = <Builder<BoulderExtraGenericParam > as ::boulder::BuilderWithPersianRug<Shelf>>::build(self.change_type(), context);
(::std::cell::Cell::new(result), context)
}
}

impl<BoulderExtraGenericParam > ::boulder::persian_rug::builder::MiniBuildableWithPersianRug<Holder , Shelf> for ::std::cell::RefCell<BoulderExtraGenericParam>
where
BoulderExtraGenericParam: ::boulder::persian_rug::builder::MiniBuildableWithPersianRug<Holder , Shelf>,
Builder<BoulderExtraGenericParam >: ::boulder::BuilderWithPersianRug<Shelf, Result = BoulderExtraGenericParam>,
Shelf: ::boulder::persian_rug::Owner<Item>, Shelf: ::boulder::persian_rug::Owner<Holder>, 
{
type Builder = Builder<::std::cell::RefCell<BoulderExtraGenericParam> >;
fn mini_builder() -> Self::Builder {
Builder::new()
}
}

impl<BoulderExtraGenericParam > ::boulder::BuilderWithPersianRug<Shelf> for Builder<::std::cell::RefCell<BoulderExtraGenericParam> >
where
Builder<BoulderExtraGenericParam >: ::boulder::BuilderWithPersianRug<Shelf, Result = BoulderExtraGenericParam>,
Shelf: ::boulder::persian_rug::Owner<Item>, Shelf: ::boulder::persian_rug::Owner<Holder>, 
{
type Result = ::std::cell::RefCell<BoulderExtraGenericParam>;
fn build(self, context: Shelf) -> (Self::Result, Shelf) {
let (result, mut context) = <Builder<BoulderExtraGenericParam > as ::boulder::BuilderWithPersianRug<Shelf>>::build(self.change_type(), context);
(::std::cell::RefCell::new(result), context)
}
}

impl<BoulderExtraGenericParam > ::boulder::persian_rug::builder::MiniBuildableWithPersianRug<Holder , Shelf> for ::std::sync::Mutex<BoulderExtraGenericParam>
where
BoulderExtraGenericParam: ::boulder::persian_rug::builder::MiniBuildableWithPersianRug<Holder , Shelf>,
Builder<BoulderExtraGenericParam >: ::boulder::BuilderWithPersianRug<Shelf, Result = BoulderExtraGenericParam>,
Shelf: ::boulder::persian_rug::Owner<Item>, Shelf: ::boulder::persian_rug::Owner<Holder>, 
{
type Builder = Builder<::std::sync::Mutex<BoulderExtraGenericParam> >;
fn mini_builder() -> Self::Builder {
Builder::new()
}
}

impl<BoulderExtraGenericParam > ::boulder::BuilderWithPersianRug<Shelf> for Builder<::std::sync::Mutex<BoulderExtraGenericParam> >
where
Builder<BoulderExtraGenericParam >: ::boulder::BuilderWithPersianRug<Shelf, Result = BoulderExtraGenericParam>,
Shelf: ::boulder::persian_rug::Owner<Item>, Shelf: ::boulder::persian_rug::Owner<Holder>, 
{
type Result = ::std::sync::Mutex<BoulderExtraGenericParam>;
fn build(self, context: Shelf) -> (Self::Result, Shelf) {
let (result, mut context) = <Builder<BoulderExtraGenericParam > as ::boulder::BuilderWithPersianRug<Shelf>>::build(self.change_type(), context);
(::std::sync::Mutex::new(result), context)
}
}

};


#[test]
fn a_record_without_directives_is_built_at_its_structural_defaults() {
    let p = Plain::builder().build();
    assert_eq!(p.a, 0);
    assert_eq!(p.b, "");
    assert_eq!(p, Plain { a: Default::default(), b: Default::default() });
    let mut g = Plain::generator();
    assert_eq!(g.generate(), Plain { a: 0, b: String::new() });
    assert_eq!(g.generate(), Plain { a: 0, b: String::new() });
}

#[test]
fn the_one_directive_given_is_what_the_record_shows() {
    assert_eq!(OnlyValue::builder().build().x, Pair { a: 9, b: "nine".to_string() });
    assert_eq!(OnlyBuilder::builder().build().x, Pair { a: 7, b: "three".to_string() });
    let mut g = OnlyGenerator::generator();
    assert_eq!(g.generate().x, 40);
    assert_eq!(g.generate().x, 41);
    // Of two directives for one slot the first is in force.
    assert_eq!(Both::builder().build().x, Pair { a: 9, b: "nine".to_string() });
}

#[test]
fn a_sequence_has_exactly_the_length_asked_for() {
    let r = Rows::builder().build();
    assert_eq!(r.none.len(), 0);
    assert_eq!(r.one, vec![8]);
    assert_eq!(r.some, vec![1, 2, 3, 4]);
    let mut g = Rows::generator();
    let a = g.generate();
    let b = g.generate();
    assert_eq!(a.none.len(), 0);
    assert_eq!(a.one.len(), 1);
    assert_eq!(a.some.len(), 4);
    assert_eq!(b.none.len(), 0);
    assert_eq!(b.one, vec![8]);
    assert_eq!(b.some, vec![5, 6, 7, 8]);
}

#[test]
fn a_wrapped_record_unwraps_to_the_record_built_bare() {
    let bare = Pair::builder().a(5).build();
    assert_eq!(bare, Pair { a: 5, b: "three".to_string() });
    assert_eq!(Option::<Pair>::builder().a(5).build().unwrap(), bare);
    assert_eq!(*Rc::<Pair>::builder().a(5).build(), bare);
    assert_eq!(*Arc::<Pair>::builder().a(5).build(), bare);
    assert_eq!(*Box::<Pair>::builder().with(|b| b.a(5)).build(), bare);
    assert_eq!(Cell::<Pair>::builder().a(5).build().into_inner(), bare);
    assert_eq!(RefCell::<Pair>::builder().a(5).build().into_inner(), bare);
    assert_eq!(Mutex::<Pair>::builder().a(5).build().into_inner().unwrap(), bare);

    let mut g = Pair::generator();
    let made = g.generate();
    assert_eq!(Option::<Pair>::generator().generate().unwrap(), made);
    assert_eq!(*Rc::<Pair>::generator().generate(), made);
    assert_eq!(*Arc::<Pair>::generator().generate(), made);
    assert_eq!(*Box::<Pair>::generator().generate(), made);
    assert_eq!(Cell::<Pair>::generator().generate().into_inner(), made);
    assert_eq!(RefCell::<Pair>::generator().generate().into_inner(), made);
    assert_eq!(Mutex::<Pair>::generator().generate().into_inner().unwrap(), made);
}

#[test]
fn a_record_in_two_layers_unwraps_to_the_record_built_bare() {
    let bare = Pair::builder().b("x").build();
    let shared = Arc::<Mutex<Pair>>::builder().b("x").build();
    assert_eq!(*shared.lock().unwrap(), bare);
    let twice = Option::<Option<Pair>>::builder().b("x").build();
    assert_eq!(twice, Some(Some(Pair { a: 3, b: "x".to_string() })));
    let celled = Rc::<RefCell<Pair>>::builder().b("x").build();
    assert_eq!(*celled.borrow(), bare);
    let boxed = Box::<Option<Pair>>::builder().with(|b| b.b("x")).build();
    assert_eq!(*boxed, Some(Pair { a: 3, b: "x".to_string() }));
    let deep = Option::<Rc<Cell<Pair>>>::builder().b("x").build();
    assert_eq!(Rc::try_unwrap(deep.unwrap()).ok().unwrap().into_inner(), bare);
    let generated = Arc::<Mutex<Pair>>::generator().generate();
    assert_eq!(*generated.lock().unwrap(), Pair { a: 3, b: "three".to_string() });
}

#[test]
fn a_build_sees_what_the_build_before_left_in_the_context() {
    let census: Census = Default::default();
    let (first, census) = Proxy::<Counted<Census>>::builder().build(census);
    let (second, census) = Proxy::<Counted<Census>>::builder().build(census);
    let (third, census) = Counted::<Census>::builder().build(census);
    assert_eq!(census.get(&first).seen, 0);
    assert_eq!(census.get(&second).seen, 1);
    assert_eq!(third.seen, 2);
    assert_eq!(census.counted.len(), 2);
}

#[test]
fn a_built_handle_designates_the_record_built() {
    let shelf: Shelf = Default::default();
    let (item, shelf) = Proxy::<Item>::builder().a(9).build(shelf);
    assert_eq!(Owner::<Item>::get(&shelf, &item), &Item { a: 9, b: 2 });
    let (holder, shelf) = Holder::builder().build(shelf);
    assert_eq!(Owner::<Item>::get(&shelf, &holder.first), &Item { a: 5, b: 2 });
    assert_eq!(Owner::<Item>::get(&shelf, &holder.second), &Item { a: 4, b: 6 });
    // Three items were on the shelf when the sequence was counted.
    assert_eq!(holder.many.len(), 3);
    assert_eq!(Owner::<Item>::get(&shelf, &holder.many[2]), &Item { a: 0, b: 2 });
    assert_eq!(shelf.items.len(), 6);
    assert_eq!(shelf.holders.len(), 0);
    let (kept, shelf) = Option::<Proxy<Holder>>::builder().build(shelf);
    assert_eq!(shelf.holders.len(), 1);
    assert_eq!(Owner::<Holder>::get(&shelf, &kept.unwrap()).many.len(), 8);
}
