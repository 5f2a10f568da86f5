use boulder::persian_rug::convert::ArcConverterWithPersianRug;
use boulder::persian_rug::convert::BoxConverterWithPersianRug;
use boulder::persian_rug::convert::OptionConverterWithPersianRug;
use boulder::persian_rug::convert::OptionProxyConverterWithPersianRug;
use boulder::persian_rug::convert::ProxyConverterWithPersianRug;
use boulder::persian_rug::convert::RcConverterWithPersianRug;
use boulder::persian_rug::convert::SelfConverterWithPersianRug;
use boulder::persian_rug::convert::Stacked;
use boulder::persian_rug::generator::draw_in_context;
use boulder::persian_rug::ConverterWithPersianRug;
use boulder::persian_rug::Owner;
use boulder::persian_rug::Proxy;
use boulder::persian_rug::Table;
use boulder::Always;
use boulder::Const;
use boulder::GeneratorToGeneratorWithPersianRugWrapper;
use boulder::GeneratorWithPersianRug;
use boulder::GeneratorWithPersianRugIterator;
use boulder::GeneratorWithPersianRugMutIterator;
use boulder::Inc;
use boulder::Repeat;
use boulder::RepeatFromPersianRug;
use boulder::Sample;
use boulder::SampleFromPersianRug;
use boulder::SequenceGeneratorWithPersianRug;
use boulder::Subsets;
use boulder::SubsetsFromPersianRug;
use boulder::TryRepeatFromPersianRug;
use std::rc::Rc;
use std::sync::Arc;

#[derive(Debug, PartialEq)]
struct Foo {
    a: i32,
}

/// Counts the records in the context.
struct Census;

impl GeneratorWithPersianRug<Table<Foo>> for Census {
    type Output = usize;
    fn generate(&mut self, context: Table<Foo>) -> (usize, Table<Foo>) {
        (context.len(), context)
    }
}

/// Adds a record to the context and makes its handle.
struct Settler {
    next: i32,
}

impl GeneratorWithPersianRug<Table<Foo>> for Settler {
    type Output = Proxy<Foo>;
    fn generate(&mut self, mut context: Table<Foo>) -> (Proxy<Foo>, Table<Foo>) {
        let p = context.add(Foo { a: self.next });
        self.next += 1;
        (p, context)
    }
}

fn two() -> (Table<Foo>, Proxy<Foo>, Proxy<Foo>) {
    let mut r = Table::new();
    let f1 = r.add(Foo { a: 0 });
    let f2 = r.add(Foo { a: 1 });
    (r, f1, f2)
}

#[test]
fn a_table_keeps_its_records_in_the_order_added() {
    let mut t: Table<Foo> = Table::new();
    assert_eq!(t.len(), 0);
    assert!(t.get_proxies().is_empty());
    let a = t.add(Foo { a: 7 });
    let b = t.add(Foo { a: 8 });
    assert_eq!(t.len(), 2);
    assert_eq!(a.index(), 0);
    assert_eq!(b.index(), 1);
    assert_eq!(t.get(&a), &Foo { a: 7 });
    assert_eq!(t.get(&b).a, 8);
    assert_eq!(t.get_proxies(), vec![a, b]);
    assert!(a != b);
    assert!(a == Proxy::at(0));
    assert_eq!(format!("{:?}", b), "Proxy { handle: 1 }");
    let d: Table<Foo> = Default::default();
    assert_eq!(d.len(), 0);
}

#[test]
fn the_existing_records_are_given_in_turn() {
    let (r, f1, f2) = two();
    let mut g = RepeatFromPersianRug::<Foo>::new();
    let (g1, r) = g.generate(r);
    assert_eq!(r.get(&g1).a, 0);
    let (g2, r) = g.generate(r);
    assert_eq!(r.get(&g2).a, 1);
    let (g3, mut r) = g.generate(r);
    assert_eq!(f1, g3);

    r.add(Foo { a: 2 });
    let (g4, r) = g.generate(r);
    assert_eq!(f2, g4);
    let (g5, _r) = g.generate(r);
    assert_eq!(g5.index(), 2);
    let d: RepeatFromPersianRug<Foo> = Default::default();
    assert_eq!(d.index, 0);
}

#[test]
fn where_there_are_no_records_none_is_given() {
    let r: Table<Foo> = Table::new();
    let mut g = TryRepeatFromPersianRug::<Foo>::new();
    let (g0, mut r) = g.generate(r);
    assert!(g0.is_none());

    r.add(Foo { a: 0 });
    r.add(Foo { a: 1 });
    let (g1, r) = g.generate(r);
    assert_eq!(r.get(&g1.unwrap()).a, 0);
    let (g2, r) = g.generate(r);
    assert_eq!(r.get(&g2.unwrap()).a, 1);
    let (g3, mut r) = g.generate(r);
    assert_eq!(g1, g3);

    r.add(Foo { a: 2 });
    let (g4, r) = g.generate(r);
    assert_eq!(g2, g4);
    let (g5, r) = g.generate(r);
    assert_eq!(r.get(&g5.unwrap()).a, 2);
    let d: TryRepeatFromPersianRug<Foo> = Default::default();
    assert_eq!(d.index, 0);
}

#[test]
fn the_subsets_of_the_existing_records_are_given_in_turn() {
    let (r, f1, f2) = two();
    let mut g = SubsetsFromPersianRug::<Foo>::new();
    let (s1, r) = g.generate(r);
    assert_eq!(s1, Vec::new());
    let (s2, r) = g.generate(r);
    assert_eq!(s2, vec![f1]);
    let (s3, r) = g.generate(r);
    assert_eq!(s3, vec![f2]);
    let (s4, mut r) = g.generate(r);
    assert_eq!(s4, vec![f1, f2]);
    let f3 = r.add(Foo { a: 2 });
    let (s5, r) = g.generate(r);
    assert_eq!(s5, vec![f3]);
    let (s6, _r) = g.generate(r);
    assert_eq!(s6, vec![f1, f3]);
    let d: SubsetsFromPersianRug<Foo> = Default::default();
    assert_eq!(d.index, 0);
}

#[test]
fn samples_of_the_existing_records_take_none_twice() {
    let (r, f1, f2) = two();
    let mut g = SampleFromPersianRug::<Foo, _, Vec<_>>::new(Inc(0usize));
    let (s1, r) = g.generate(r);
    assert_eq!(s1, Vec::new());
    let (s2, r) = g.generate(r);
    assert_eq!(s2, vec![f1]);
    let (s3, r) = g.generate(r);
    assert_eq!(s3, vec![f2, f1]);
    let (s4, _r) = g.generate(r);
    assert_eq!(s4, vec![f2, f1]);

    let empty: Table<Foo> = Table::new();
    let mut h = SampleFromPersianRug::<Foo, _, Vec<_>>::new(Const(3usize));
    let (none, _) = h.generate(empty);
    assert_eq!(none, Vec::new());
}

#[test]
fn a_collection_has_as_many_elements_as_the_count_says() {
    let r: Table<Foo> = Table::new();
    let mut g = SequenceGeneratorWithPersianRug::<_, _, Vec<Proxy<Foo>>>::new(
        Inc(0usize),
        Settler { next: 5 },
    );
    let (none, r) = g.generate(r);
    assert_eq!(none.len(), 0);
    assert_eq!(r.len(), 0);
    let (one, r) = g.generate(r);
    assert_eq!(one.len(), 1);
    assert_eq!(r.get(&one[0]).a, 5);
    let (two, r) = g.generate(r);
    assert_eq!(two.len(), 2);
    assert_eq!(r.get(&two[0]).a, 6);
    assert_eq!(r.get(&two[1]).a, 7);
    assert_eq!(r.len(), 3);
    let (items, r) = g.generate_items(r);
    assert_eq!(items.len(), 3);
    assert_eq!(r.len(), 6);
}

#[test]
fn each_element_sees_what_the_one_before_left() {
    let r: Table<Foo> = Table::new();
    // As many new records as there are records already.
    let mut g = SequenceGeneratorWithPersianRug::<_, _, Vec<Proxy<Foo>>>::new(Census, Settler { next: 0 });
    let (first, mut r) = g.generate(r);
    assert!(first.is_empty());
    r.add(Foo { a: 100 });
    let (second, r) = g.generate(r);
    assert_eq!(second.len(), 1);
    assert_eq!(r.len(), 2);
    let (third, r) = g.generate(r);
    assert_eq!(third.len(), 2);
    assert_eq!(third[0].index(), 2);
    assert_eq!(third[1].index(), 3);
    assert_eq!(r.len(), 4);
    assert_eq!(r.get(&third[1]).a, 2);
}

#[test]
fn the_context_is_handed_from_step_to_step() {
    let r: Table<Foo> = Table::new();
    let mut census = Census;
    let (before, r) = census.generate(r);
    assert_eq!(before, 0);
    let (_, r) = Settler { next: 1 }.generate(r);
    let (after, _r) = census.generate(r);
    assert_eq!(after, 1);
}

#[test]
fn a_plain_generator_passes_the_context_through() {
    let (r, _, _) = two();
    let mut g = GeneratorToGeneratorWithPersianRugWrapper::new(Inc(3i32));
    let (a, r) = g.generate(r);
    let (b, r) = g.generate(r);
    assert_eq!((a, b), (3, 4));
    assert_eq!(r.len(), 2);
    let mut c = Const(7u8);
    let (x, r) = GeneratorWithPersianRug::generate(&mut c, r);
    assert_eq!(x, 7);
    let mut i = Inc(1u8);
    let (y, r) = GeneratorWithPersianRug::generate(&mut i, r);
    let (z, r) = GeneratorWithPersianRug::generate(&mut i, r);
    assert_eq!((y, z), (1, 2));
    let mut l = Repeat::new(vec![1, 2]);
    let (p, r) = GeneratorWithPersianRug::generate(&mut l, r);
    let (q, r) = GeneratorWithPersianRug::generate(&mut l, r);
    assert_eq!((p, q), (1, 2));
    let mut s = Subsets::new(vec![1, 2]);
    let (_, r) = GeneratorWithPersianRug::generate(&mut s, r);
    let (t, r) = GeneratorWithPersianRug::generate(&mut s, r);
    assert_eq!(t, vec![1]);
    let mut f = || 9;
    let (n, r) = GeneratorWithPersianRug::generate(&mut f, r);
    assert_eq!(n, 9);
    let mut o = Always(Settler { next: 4 });
    let (h, r) = GeneratorWithPersianRug::generate(&mut o, r);
    assert_eq!(r.get(&h.unwrap()).a, 4);
    let mut m = Sample::new(Settler { next: 8 }, Const(2usize));
    let (made, r) = GeneratorWithPersianRug::generate(&mut m, r);
    assert_eq!(made.len(), 2);
    assert_eq!(r.get(&made[1]).a, 9);
    assert_eq!(r.len(), 5);
}

#[test]
fn a_run_in_a_context_gives_generator_and_context_back() {
    let r: Table<Foo> = Table::new();
    let mut iter = GeneratorWithPersianRugIterator::new(Settler { next: 1 }, r);
    let f1 = iter.next().unwrap();
    let f2 = iter.next().unwrap();
    let (mut g, r) = iter.into_inner();
    assert_eq!(r.get(&f1).a, 1);
    assert_eq!(r.get(&f2).a, 2);
    let (f3, r) = g.generate(r);
    assert_eq!(r.get(&f3).a, 3);

    let mut borrowed = GeneratorWithPersianRugMutIterator::new(&mut g, r);
    let f4 = borrowed.next().unwrap();
    let r = borrowed.into_inner();
    assert_eq!(r.get(&f4).a, 4);
    let (f5, r) = g.generate(r);
    assert_eq!(r.get(&f5).a, 5);
    let (drawn, r) = draw_in_context(&mut g, r, 3);
    assert_eq!(drawn.len(), 3);
    assert_eq!(r.get(&drawn[2]).a, 8);
    let (nothing, r) = draw_in_context(&mut g, r, 0);
    assert!(nothing.is_empty());
    assert_eq!(r.len(), 8);
}

#[test]
fn a_layer_put_on_and_taken_off_leaves_the_value() {
    let (r, _, _) = two();
    let (same, r) = SelfConverterWithPersianRug.convert(Foo { a: 5 }, r);
    assert_eq!(same, Foo { a: 5 });
    let (option, r) = OptionConverterWithPersianRug.convert(Foo { a: 5 }, r);
    assert_eq!(option, Some(Foo { a: 5 }));
    let (rc, r): (Rc<Foo>, _) = RcConverterWithPersianRug.convert(Foo { a: 5 }, r);
    assert_eq!(*rc, Foo { a: 5 });
    let (arc, r): (Arc<Foo>, _) = ArcConverterWithPersianRug.convert(Foo { a: 5 }, r);
    assert_eq!(*arc, Foo { a: 5 });
    let (boxed, r): (Box<Foo>, _) = BoxConverterWithPersianRug.convert(Foo { a: 5 }, r);
    assert_eq!(*boxed, Foo { a: 5 });
    assert_eq!(r.len(), 2);
}

#[test]
fn a_handle_designates_the_record_that_went_in() {
    let (r, _, _) = two();
    let (p, r) = ProxyConverterWithPersianRug.convert(Foo { a: 5 }, r);
    assert_eq!(p.index(), 2);
    assert_eq!(r.len(), 3);
    assert_eq!(r.get(&p), &Foo { a: 5 });
    let (q, r) = OptionProxyConverterWithPersianRug.convert(Foo { a: 6 }, r);
    assert_eq!(r.len(), 4);
    assert_eq!(r.get(&q.unwrap()), &Foo { a: 6 });
}

#[test]
fn layers_stack() {
    let (r, _, _) = two();
    let both = Stacked { inner: OptionConverterWithPersianRug, outer: RcConverterWithPersianRug };
    let (out, r): (Rc<Option<Foo>>, _) = both.convert(Foo { a: 5 }, r);
    assert_eq!(*out, Some(Foo { a: 5 }));
    let handle = Stacked { inner: ProxyConverterWithPersianRug, outer: OptionConverterWithPersianRug };
    let (p, r) = handle.convert(Foo { a: 6 }, r);
    let (q, r) = OptionProxyConverterWithPersianRug.convert(Foo { a: 7 }, r);
    assert_eq!(p.unwrap().index(), 2);
    assert_eq!(q.unwrap().index(), 3);
    assert_eq!(r.get(&p.unwrap()).a, 6);
    assert_eq!(r.get(&q.unwrap()).a, 7);
}
