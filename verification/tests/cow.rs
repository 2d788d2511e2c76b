use cow2::like_impls::{from_std, into_std, std_add_cow, std_round_trip, string_extend};
use cow2::{Cow, CowT};

struct CowFrom;

impl From<CowFrom> for std::borrow::Cow<'_, str> {
    fn from(_: CowFrom) -> Self {
        "cowfrom".into()
    }
}

fn narrow<'short, 'long: 'short>(x: Cow<'long, str>) -> Cow<'short, str> {
    x
}

#[allow(clippy::type_complexity)]
fn narrow_nested<'short, 'long: 'short>(
    x: CowT<'long, [CowT<'long, str, String>], Vec<CowT<'long, str, String>>>,
) -> CowT<'short, [CowT<'short, str, String>], Vec<CowT<'short, str, String>>> {
    x
}

#[test]
fn from_test() {
    let _cow = Cow::from("foo");
    let _cow = Cow::from("foo".to_owned());
    let arr = [1, 2];
    let _cow = Cow::from(&arr[..]);
    let _cow: Cow<[i32]> = Cow::from(vec![1, 2]);
    let _cow = Cow::from(std::borrow::Cow::Borrowed(""));
    let _cow = Cow::from(std::borrow::Cow::Borrowed(&arr[..]));
    let _cow = Cow::from(std::borrow::Cow::from(CowFrom));
}

#[test]
fn into_test() {
    let cow = Cow::from("");
    let _str = String::from(cow);
}

#[test]
fn covariance_shrinks_borrow() {
    let long: Cow<'static, str> = Cow::Borrowed("static text");
    let local = String::from("local");
    let shorter: Cow<'_, str> = narrow(long);
    assert!(shorter == "static text");
    assert!(shorter == Cow::Borrowed(local.as_str()) || shorter != Cow::Borrowed(local.as_str()));
}

#[test]
fn covariance_nested() {
    let inner: Vec<CowT<'static, str, String>> = vec![CowT::Borrowed("a"), CowT::Borrowed("b")];
    let long: CowT<'static, [CowT<'static, str, String>], Vec<CowT<'static, str, String>>> =
        CowT::Owned(inner);
    let shorter = narrow_nested(long);
    assert!(matches!(shorter, CowT::Owned(ref v) if v.len() == 2));
}

#[test]
fn to_mut_materializes() {
    let mut cow = Cow::Borrowed("foo");
    cow.to_mut().make_ascii_uppercase();
    assert!(matches!(cow, CowT::Owned(ref s) if s == "FOO"));
    assert!(cow == "FOO");
}

#[test]
fn to_mut_at_most_one_clone() {
    let mut cow: Cow<str> = Cow::Borrowed("foo");
    cow.to_mut().push_str("1");
    cow.to_mut().push_str("2");
    cow.to_mut().push_str("3");
    assert!(matches!(cow, CowT::Owned(_)));
    assert_eq!(cow.into_owned(), "foo123");
}

#[test]
fn into_owned_from_borrowed() {
    let s = "Hello world!";
    let cow = Cow::Borrowed(s);
    assert_eq!(cow.into_owned(), String::from(s));
}

#[test]
fn into_owned_returns_exact_value() {
    let s = String::from("foo");
    let p = s.as_ptr();
    let owned: Cow<str> = Cow::Owned(s);
    let out = owned.into_owned();
    assert_eq!(out.as_ptr(), p);
    assert_eq!(out, "foo");
}

#[test]
fn deref_equivalence() {
    let b: Cow<str> = Cow::Borrowed("foo");
    let o: Cow<str> = Cow::Owned(String::from("foo"));
    assert!(b == o);
    assert!(b == "foo");
    assert!(o == "foo");
    assert_eq!(b.partial_cmp(&o), Some(std::cmp::Ordering::Equal));
    assert!(b <= o && b >= o && !(b < o) && !(b > o));
    let z: Cow<str> = Cow::Borrowed("zoo");
    assert!(b < z);
    assert!(z > o);
    assert!(b != z);
    assert_eq!(b.partial_cmp(&z), Some(std::cmp::Ordering::Less));
    assert_eq!(b.cmp(&o), std::cmp::Ordering::Equal);
    assert_eq!(z.cmp(&b), std::cmp::Ordering::Greater);
}

#[test]
fn deref_matches_both_states() {
    let b: Cow<str> = Cow::Borrowed("abc");
    let o: Cow<str> = Cow::Owned(String::from("abc"));
    assert_eq!(b.deref(), "abc");
    assert_eq!(o.deref(), "abc");
    assert_eq!(b.as_ref(), o.borrow());
}

#[test]
fn empty_concat_shortcuts() {
    let empty: Cow<str> = Cow::Borrowed("");
    let bar = "bar";
    let r = empty.add_cow(Cow::Borrowed(bar));
    match r {
        CowT::Borrowed(s) => assert!(std::ptr::eq(s, bar)),
        CowT::Owned(_) => panic!("empty left operand must keep the right operand borrowed"),
    }
    let foo: Cow<str> = Cow::Borrowed("foo");
    let r2 = foo.add("");
    match r2 {
        CowT::Borrowed(s) => assert_eq!(s, "foo"),
        CowT::Owned(_) => panic!("empty right operand must not materialize the left"),
    }
}

#[test]
fn concat_materializes_once() {
    let c: Cow<str> = Cow::Borrowed("foo");
    let r = c.add("bar");
    assert!(matches!(r, CowT::Owned(_)));
    assert!(r == "foobar");
}

#[test]
fn add_assign_variants() {
    let mut c: Cow<str> = Cow::Borrowed("a");
    c.add_assign("b");
    assert!(c == "ab");
    c.add_assign_cow(Cow::Owned(String::from("c")));
    assert!(c == "abc");
    c.add_assign_std(std::borrow::Cow::Borrowed("d"));
    assert!(c == "abcd");
    let r = c.add_std(std::borrow::Cow::Owned(String::from("e")));
    assert!(r == "abcde");
}

#[test]
fn std_round_trip_preserves_branch() {
    let b: Cow<str> = Cow::Borrowed("foo");
    let rb = std_round_trip(b);
    assert!(matches!(rb, CowT::Borrowed("foo")));
    let o: Cow<str> = Cow::Owned(String::from("foo"));
    let ro = std_round_trip(o);
    assert!(matches!(ro, CowT::Owned(ref s) if s == "foo"));
}

#[test]
fn std_bridge_preserves_branch_each_way() {
    let ours = from_std(std::borrow::Cow::Borrowed("x"));
    assert!(matches!(ours, CowT::Borrowed("x")));
    let back = into_std(ours);
    assert!(matches!(back, std::borrow::Cow::Borrowed("x")));
    let owned_back = into_std(Cow::Owned(String::from("y")));
    assert!(matches!(owned_back, std::borrow::Cow::Owned(ref s) if s == "y"));
    let sl: Cow<[i32]> = Cow::from(std::borrow::Cow::Borrowed(&[1, 2][..]));
    assert!(matches!(sl, CowT::Borrowed(s) if s == [1, 2]));
}

#[test]
fn std_round_trip_bytes_preserves_branch() {
    let b: Cow<[u8]> = Cow::Borrowed(&[7u8, 8][..]);
    let rb = cow2::like_impls::std_round_trip_bytes(b);
    assert!(matches!(rb, CowT::Borrowed(s) if s == [7, 8]));
    let o: Cow<[u8]> = Cow::Owned(vec![9u8]);
    let ro = cow2::like_impls::std_round_trip_bytes(o);
    assert!(matches!(ro, CowT::Owned(ref v) if v == &vec![9u8]));
}

#[test]
fn default_is_owned_empty() {
    let d: Cow<str> = Default::default();
    assert!(matches!(d, CowT::Owned(ref s) if s.is_empty()));
    let ds: Cow<[u8]> = Default::default();
    assert!(matches!(ds, CowT::Owned(ref v) if v.is_empty()));
}

#[test]
fn clone_preserves_branch() {
    let b: Cow<str> = Cow::Borrowed("foo");
    let bc = b.clone();
    assert!(matches!(bc, CowT::Borrowed("foo")));
    let o: Cow<str> = Cow::Owned(String::from("bar"));
    let oc = o.clone();
    assert!(matches!(oc, CowT::Owned(ref s) if s == "bar"));
}

#[test]
fn from_iter_concatenates() {
    let parts = vec!["foo", "bar", "baz"];
    let r = Cow::from_iter(&parts);
    assert!(matches!(r, CowT::Owned(_)));
    assert!(r == "foobarbaz");
}

#[test]
fn string_extend_appends() {
    let mut s = String::from(">");
    string_extend(
        &mut s,
        vec![Cow::Borrowed("a"), Cow::Owned(String::from("b")), Cow::Borrowed("c")],
    );
    assert_eq!(s, ">abc");
}

#[test]
fn byte_references_compare_by_content() {
    let b: Cow<[u8]> = Cow::Borrowed(&[1u8, 2][..]);
    let o: Cow<[u8]> = Cow::Owned(vec![1u8, 2]);
    assert!(b == o);
    let other: Cow<[u8]> = Cow::Owned(vec![1u8, 3]);
    assert!(b != other);
    let shorter: Cow<[u8]> = Cow::Borrowed(&[1u8][..]);
    assert!(b != shorter);
}

#[test]
fn std_on_the_left_concat() {
    let r = std_add_cow(std::borrow::Cow::Borrowed("ab"), Cow::Borrowed("cd"));
    assert!(matches!(r, std::borrow::Cow::Owned(ref s) if s == "abcd"));
    let kept = std_add_cow(std::borrow::Cow::Borrowed(""), Cow::Borrowed("cd"));
    assert!(matches!(kept, std::borrow::Cow::Borrowed("cd")));
    let left = std_add_cow(std::borrow::Cow::Borrowed("ab"), Cow::Borrowed(""));
    assert!(matches!(left, std::borrow::Cow::Borrowed("ab")));
}

#[test]
fn conversions_to_owned_containers() {
    let c: Cow<str> = Cow::Borrowed("abc");
    let b: Box<str> = Box::from(c);
    assert_eq!(&*b, "abc");
    let c2: Cow<[u8]> = Cow::Borrowed(&[1u8, 2][..]);
    let v: Vec<u8> = Vec::from(c2);
    assert_eq!(v, vec![1, 2]);
    let c3: Cow<[u8]> = Cow::Owned(vec![3u8]);
    let bs: Box<[u8]> = Box::from(c3);
    assert_eq!(&*bs, &[3u8][..]);
    let c4: Cow<str> = Cow::Owned(String::from("xyz"));
    assert_eq!(String::from(c4), "xyz");
}
