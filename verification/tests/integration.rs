use std::cell::RefCell;

use platify::decl::{CallableDecl, FnItem, GenericParam, Param, StructDecl};
use platify::engine::{sys_function, sys_struct};

// The guard of the default configuration (no directives: every platform).
const GUARD_ALL: &str =
    "#[cfg(any(target_os = \"linux\", target_os = \"macos\", target_os = \"windows\"))]";

fn receiver() -> Param {
    Param::Receiver { text: String::from("&self") }
}

fn named(name: &str, ty: &str) -> Param {
    Param::Named { mutable: false, name: String::from(name), ty: String::from(ty) }
}

fn signature_decl(vis: &str, name: &str, params: Vec<Param>, ret: Option<&str>) -> CallableDecl {
    CallableDecl {
        attrs: vec![],
        vis: String::from(vis),
        is_const: false,
        is_async: false,
        is_unsafe: false,
        name: String::from(name),
        generics: vec![],
        params,
        variadic: false,
        ret: ret.map(String::from),
    }
}

// =========================================================================
// Basics & dispatching: the wrapper forwards to the `_impl` method.
// =========================================================================

struct SimpleMath;

impl SimpleMath {
    fn add_impl(&self, a: i32, b: i32) -> i32 {
        a + b
    }

    // Hand-expanded form of the wrapper the engine emits for
    // `pub fn add(&self, a: i32, b: i32) -> i32;` (without its guard).
    pub fn add(&self, a: i32, b: i32) -> i32 {
        Self::add_impl(self, a, b)
    }
}

#[test]
fn test_basic_dispatch() {
    let decl = signature_decl(
        "pub",
        "add",
        vec![receiver(), named("a", "i32"), named("b", "i32")],
        Some("i32"),
    );
    let out = sys_function("", &FnItem::Signature(decl));
    assert!(out.diagnostics.is_empty());
    assert_eq!(
        out.text,
        format!(
            "{}\npub fn add(&self, a: i32, b: i32) -> i32 {{\n    Self::add_impl(self, a, b)\n}}",
            GUARD_ALL
        )
    );
    let math = SimpleMath;
    assert_eq!(math.add(10, 20), 30);
}

// =========================================================================
// Visibility propagation: a `pub` declaration keeps `pub` on the wrapper.
// =========================================================================

#[test]
fn test_visibility_is_preserved() {
    let decl = signature_decl("pub", "do_public_work", vec![receiver()], Some("bool"));
    let out = sys_function("", &FnItem::Signature(decl));
    assert!(out.diagnostics.is_empty());
    assert_eq!(
        out.text,
        format!(
            "{}\npub fn do_public_work(&self) -> bool {{\n    Self::do_public_work_impl(self)\n}}",
            GUARD_ALL
        )
    );
}

// =========================================================================
// Argument forwarding & mutability: `mut` is stripped in the forwarding
// call, while the declared signature keeps it.
// =========================================================================

struct StateProcessor;

impl StateProcessor {
    fn process_impl(&self, value: i32, factor: i32) -> i32 {
        value * factor
    }

    // Hand-expanded form of the emitted wrapper.
    #[allow(unused_mut)]
    fn process(&self, mut value: i32, factor: i32) -> i32 {
        Self::process_impl(self, value, factor)
    }
}

#[test]
fn test_argument_cleaning() {
    let decl = CallableDecl {
        attrs: vec![String::from("#[allow(unused_mut)]")],
        vis: String::new(),
        is_const: false,
        is_async: false,
        is_unsafe: false,
        name: String::from("process"),
        generics: vec![],
        params: vec![
            receiver(),
            Param::Named { mutable: true, name: String::from("value"), ty: String::from("i32") },
            named("factor", "i32"),
        ],
        variadic: false,
        ret: Some(String::from("i32")),
    };
    let out = sys_function("", &FnItem::Signature(decl));
    assert!(out.diagnostics.is_empty());
    assert_eq!(
        out.text,
        format!(
            "{}\n#[allow(unused_mut)]\nfn process(&self, mut value: i32, factor: i32) -> i32 {{\n    Self::process_impl(self, value, factor)\n}}",
            GUARD_ALL
        )
    );
    let processor = StateProcessor;
    assert_eq!(processor.process(10, 2), 20);
}

// =========================================================================
// Generics: type parameters are forwarded explicitly on the call.
// =========================================================================

struct GenericHandler;

impl GenericHandler {
    fn wrap_impl<T: Clone>(&self, item: T) -> (T, T) {
        (item.clone(), item)
    }

    // Hand-expanded form of the emitted wrapper.
    fn wrap<T: Clone>(&self, item: T) -> (T, T) {
        Self::wrap_impl::<T>(self, item)
    }
}

#[test]
fn test_generics() {
    let decl = CallableDecl {
        attrs: vec![],
        vis: String::new(),
        is_const: false,
        is_async: false,
        is_unsafe: false,
        name: String::from("wrap"),
        generics: vec![GenericParam::Type {
            name: String::from("T"),
            bounds: String::from("Clone"),
        }],
        params: vec![receiver(), named("item", "T")],
        variadic: false,
        ret: Some(String::from("(T, T)")),
    };
    let out = sys_function("", &FnItem::Signature(decl));
    assert!(out.diagnostics.is_empty());
    assert_eq!(
        out.text,
        format!(
            "{}\nfn wrap<T: Clone>(&self, item: T) -> (T, T) {{\n    Self::wrap_impl::<T>(self, item)\n}}",
            GUARD_ALL
        )
    );
    let handler = GenericHandler;
    let result = handler.wrap("hello");
    assert_eq!(result, ("hello", "hello"));
}

// =========================================================================
// Unit return: the forwarding call is closed as a statement.
// =========================================================================

struct SideEffect;

impl SideEffect {
    fn trigger_impl(&self, counter: &RefCell<i32>) {
        *counter.borrow_mut() += 1;
    }

    // Hand-expanded form of the emitted wrapper.
    fn trigger(&self, counter: &RefCell<i32>) {
        Self::trigger_impl(self, counter);
    }
}

#[test]
fn test_unit_return() {
    let decl = signature_decl(
        "",
        "trigger",
        vec![receiver(), named("counter", "&RefCell<i32>")],
        None,
    );
    let out = sys_function("", &FnItem::Signature(decl));
    assert!(out.diagnostics.is_empty());
    assert_eq!(
        out.text,
        format!(
            "{}\nfn trigger(&self, counter: &RefCell<i32>) {{\n    Self::trigger_impl(self, counter);\n}}",
            GUARD_ALL
        )
    );
    let effect = SideEffect;
    let counter = RefCell::new(0);
    effect.trigger(&counter);
    assert_eq!(*counter.borrow(), 1);
}

// =========================================================================
// Async support: the forwarding call is awaited and stands as the tail
// expression.
// =========================================================================

#[test]
fn test_async() {
    let decl = CallableDecl {
        attrs: vec![],
        vis: String::new(),
        is_const: false,
        is_async: true,
        is_unsafe: false,
        name: String::from("fetch"),
        generics: vec![],
        params: vec![receiver()],
        variadic: false,
        ret: Some(String::from("u8")),
    };
    let out = sys_function("", &FnItem::Signature(decl));
    assert!(out.diagnostics.is_empty());
    assert_eq!(
        out.text,
        format!(
            "{}\nasync fn fetch(&self) -> u8 {{\n    Self::fetch_impl(self).await\n}}",
            GUARD_ALL
        )
    );
}

// =========================================================================
// Exclusion logic: `exclude(windows)` guards the wrapper for the two
// remaining platforms.
// =========================================================================

struct OsSpecific;

impl OsSpecific {
    #[allow(dead_code)]
    fn unix_only_impl(&self) -> bool {
        true
    }

    // Hand-expanded form of the emitted wrapper.
    fn unix_only(&self) -> bool {
        Self::unix_only_impl(self)
    }
}

#[test]
fn test_exclusion() {
    let decl = signature_decl("", "unix_only", vec![receiver()], Some("bool"));
    let out = sys_function("exclude(windows)", &FnItem::Signature(decl));
    assert!(out.diagnostics.is_empty());
    assert_eq!(
        out.text,
        "#[cfg(any(target_os = \"linux\", target_os = \"macos\"))]\nfn unix_only(&self) -> bool {\n    Self::unix_only_impl(self)\n}"
    );
    let _os = OsSpecific;
    assert!(_os.unix_only());
}

// =========================================================================
// Trait assertions with generics: the check stays generic instead of
// instantiating the type with dummy arguments.
// =========================================================================

#[allow(dead_code)]
struct GenericWrapper<T: Clone + Send + Sync> {
    data: T,
}

#[test]
fn test_generic_trait_assertion() {
    let decl = StructDecl {
        vis: String::new(),
        name: String::from("GenericWrapper"),
        generics: vec![GenericParam::Type {
            name: String::from("T"),
            bounds: String::from("Clone + Send + Sync"),
        }],
        where_clause: String::new(),
        deprecation: String::new(),
    };
    let item_text = "struct GenericWrapper<T: Clone + Send + Sync> {\n    data: T,\n}";
    let out = sys_struct("traits(Send, Sync)", &decl, item_text);
    assert!(out.diagnostics.is_empty());
    let expected = format!(
        "{g}\n{item}\n{g}\nconst _: () = {{\n    fn _assert_traits<T: Send + Sync + ?Sized>() {{}}\n    fn _check<T: Clone + Send + Sync>() {{ _assert_traits::<GenericWrapper<T>>(); }}\n}};\n{a1}\n{a2}\n{a3}",
        g = GUARD_ALL,
        item = item_text,
        a1 = "#[cfg(target_os = \"linux\")]\ntype GenericWrapperLinux<T: Clone + Send + Sync> = GenericWrapper<T>;",
        a2 = "#[cfg(target_os = \"macos\")]\ntype GenericWrapperMacOS<T: Clone + Send + Sync> = GenericWrapper<T>;",
        a3 = "#[cfg(target_os = \"windows\")]\ntype GenericWrapperWindows<T: Clone + Send + Sync> = GenericWrapper<T>;",
    );
    assert_eq!(out.text, expected);
    let _wrapper = GenericWrapper { data: 42 };
}

// =========================================================================
// Unsafe support: the wrapper stays unsafe and the forwarding call is
// explicitly acknowledged as an unsafe operation.
// =========================================================================

#[test]
fn test_unsafe() {
    let decl = CallableDecl {
        attrs: vec![],
        vis: String::new(),
        is_const: false,
        is_async: false,
        is_unsafe: true,
        name: String::from("explode"),
        generics: vec![],
        params: vec![receiver()],
        variadic: false,
        ret: Some(String::from("bool")),
    };
    let out = sys_function("", &FnItem::Signature(decl));
    assert!(out.diagnostics.is_empty());
    let body = "unsafe { Self::explode_impl(self) }";
    assert_eq!(
        out.text,
        format!("{}\nunsafe fn explode(&self) -> bool {{\n    {}\n}}", GUARD_ALL, body)
    );
}

// =========================================================================
// Lifetimes & references: lifetime parameters stay on the signature and are
// never forwarded as explicit generic arguments.
// =========================================================================

struct StringParser;

impl StringParser {
    fn parse_impl<'a>(&self, input: &'a str) -> &'a str {
        input.trim()
    }

    // Hand-expanded form of the emitted wrapper.
    fn parse<'a>(&self, input: &'a str) -> &'a str {
        Self::parse_impl(self, input)
    }
}

#[test]
fn test_lifetimes() {
    let decl = CallableDecl {
        attrs: vec![],
        vis: String::new(),
        is_const: false,
        is_async: false,
        is_unsafe: false,
        name: String::from("parse"),
        generics: vec![GenericParam::Lifetime { name: String::from("a"), bounds: String::new() }],
        params: vec![receiver(), named("input", "&'a str")],
        variadic: false,
        ret: Some(String::from("&'a str")),
    };
    let out = sys_function("", &FnItem::Signature(decl));
    assert!(out.diagnostics.is_empty());
    assert_eq!(
        out.text,
        format!(
            "{}\nfn parse<'a>(&self, input: &'a str) -> &'a str {{\n    Self::parse_impl(self, input)\n}}",
            GUARD_ALL
        )
    );
    let parser = StringParser;
    let data = "  hello  ";
    assert_eq!(parser.parse(data), "hello");
}
