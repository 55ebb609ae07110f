use platify::decl::{
    CallableDecl, FnItem, GenericParam, ModInput, Param, StructDecl, UseTreeShape,
};
use platify::diag::Anchor;
use platify::engine::{platform_mod, sys_function, sys_struct, sys_trait_function};
use platify::parse::allow_keyword;

const GUARD_ALL: &str =
    "#[cfg(any(target_os = \"linux\", target_os = \"macos\", target_os = \"windows\"))]";

fn allow(list: &str) -> String {
    format!("{}({})", allow_keyword(), list)
}

fn plain_decl(name: &str, params: Vec<Param>, ret: Option<&str>) -> CallableDecl {
    CallableDecl {
        attrs: vec![],
        vis: String::new(),
        is_const: false,
        is_async: false,
        is_unsafe: false,
        name: String::from(name),
        generics: vec![],
        params,
        variadic: false,
        ret: ret.map(String::from),
    }
}

fn receiver() -> Param {
    Param::Receiver { text: String::from("&self") }
}

fn named(name: &str, ty: &str) -> Param {
    Param::Named { mutable: false, name: String::from(name), ty: String::from(ty) }
}

// A receiver-having, two-parameter, non-generic, non-async, non-unsafe,
// unit-returning declaration named `reboot`: the wrapper body is a
// statement-form call to `Self::reboot_impl` with both parameters forwarded
// by name and no generic-argument list.
#[test]
fn reboot_wrapper_is_a_statement_call() {
    let decl = plain_decl("reboot", vec![receiver(), named("level", "u32"), named("force", "bool")], None);
    let out = sys_function("", &FnItem::Signature(decl));
    assert!(out.diagnostics.is_empty());
    assert_eq!(
        out.text,
        format!(
            "{}\nfn reboot(&self, level: u32, force: bool) {{\n    Self::reboot_impl(self, level, force);\n}}",
            GUARD_ALL
        )
    );
}

// The same declaration, but asynchronous and returning a value: the wrapper's
// tail expression is the awaited call, with no trailing statement semicolon.
#[test]
fn async_valued_wrapper_awaits_as_tail_expression() {
    let mut decl = plain_decl(
        "reboot",
        vec![receiver(), named("level", "u32"), named("force", "bool")],
        Some("i32"),
    );
    decl.is_async = true;
    let out = sys_function("", &FnItem::Signature(decl));
    assert!(out.diagnostics.is_empty());
    assert_eq!(
        out.text,
        format!(
            "{}\nasync fn reboot(&self, level: u32, force: bool) -> i32 {{\n    Self::reboot_impl(self, level, force).await\n}}",
            GUARD_ALL
        )
    );
}

// A variadic declaration is rejected outright: a diagnostic anchored at the
// variadic marker, and no wrapper at all.
#[test]
fn variadic_declarations_are_rejected() {
    let mut decl = plain_decl("printf", vec![receiver(), named("fmt", "&str")], None);
    decl.variadic = true;
    let out = sys_function("", &FnItem::Signature(decl));
    assert_eq!(out.text, "");
    assert_eq!(out.diagnostics.len(), 1);
    assert_eq!(out.diagnostics[0].message, "variadic arguments are not permitted");
    assert_eq!(out.diagnostics[0].anchor, Anchor::Variadic);
}

// A pattern-bound parameter cannot be forwarded: it is reported and left out
// of the call, while the rest of the wrapper is still emitted.
#[test]
fn pattern_parameters_are_reported_and_skipped() {
    let decl = plain_decl(
        "update",
        vec![
            receiver(),
            Param::Pattern { text: String::from("(x, y): (i32, i32)") },
            named("z", "i32"),
        ],
        None,
    );
    let out = sys_function("", &FnItem::Signature(decl));
    assert_eq!(out.diagnostics.len(), 1);
    assert_eq!(
        out.diagnostics[0].message,
        "complex patterns in arguments are not supported: give the argument a name"
    );
    assert_eq!(out.diagnostics[0].anchor, Anchor::Param { index: 1 });
    assert_eq!(
        out.text,
        format!(
            "{}\nfn update(&self, (x, y): (i32, i32), z: i32) {{\n    Self::update_impl(self, z);\n}}",
            GUARD_ALL
        )
    );
}

// An already-bodied declaration only receives the guard: the plain
// conditional mode rewrites nothing.
#[test]
fn bodied_declarations_only_get_the_guard() {
    let item = "fn probe(&self) -> bool { true }";
    let out = sys_function("exclude(macos)", &FnItem::Bodied(String::from(item)));
    assert!(out.diagnostics.is_empty());
    assert_eq!(
        out.text,
        format!("#[cfg(any(target_os = \"linux\", target_os = \"windows\"))]\n{}", item)
    );
}

// A malformed option block is fatal: one diagnostic, nothing generated.
#[test]
fn parse_failure_generates_nothing() {
    let decl = plain_decl("probe", vec![receiver()], None);
    let out = sys_function("platforms(linux)", &FnItem::Signature(decl));
    assert_eq!(out.text, "");
    assert_eq!(out.diagnostics.len(), 1);
    assert_eq!(out.diagnostics[0].message, "malformed option block: unknown keyword or malformed list");
    assert_eq!(out.diagnostics[0].anchor, Anchor::OptionBlock);
}

// An empty resolved set still emits the always-false guard on the wrapper,
// beside the conflict diagnostic.
#[test]
fn conflicting_directives_still_emit_a_wrapper() {
    let decl = plain_decl("probe", vec![receiver()], None);
    let out = sys_function("exclude(all)", &FnItem::Signature(decl));
    assert_eq!(out.diagnostics.len(), 1);
    assert_eq!(out.diagnostics[0].anchor, Anchor::OptionBlock);
    assert_eq!(
        out.text,
        "#[cfg(any())]\nfn probe(&self) {\n    Self::probe_impl(self);\n}"
    );
}

// A trait method definition receives the guard on the unchanged item.
#[test]
fn trait_methods_receive_the_guard() {
    let item = "fn get_wm_name(&self) -> String;";
    let out = sys_trait_function(&allow("linux"), item);
    assert!(out.diagnostics.is_empty());
    assert_eq!(out.text, format!("#[cfg(target_os = \"linux\")]\n{}", item));
}

// With `windows` alone allowed, exactly one alias is emitted, suffixed for
// Windows, guarded by that single atom's predicate — no disjunction.
#[test]
fn single_atom_emits_a_single_alias() {
    let decl = StructDecl {
        vis: String::from("pub"),
        name: String::from("Handle"),
        generics: vec![],
        where_clause: String::new(),
        deprecation: String::new(),
    };
    let item = "pub struct Handle {\n    handle: u64,\n}";
    let out = sys_struct(&allow("windows"), &decl, item);
    assert!(out.diagnostics.is_empty());
    assert_eq!(
        out.text,
        format!(
            "#[cfg(target_os = \"windows\")]\n{}\n#[cfg(target_os = \"windows\")]\npub type HandleWindows = Handle;",
            item
        )
    );
}

// A deprecation marker on the declaration is carried verbatim onto every
// generated alias.
#[test]
fn deprecation_markers_are_propagated() {
    let decl = StructDecl {
        vis: String::new(),
        name: String::from("Socket"),
        generics: vec![],
        where_clause: String::new(),
        deprecation: String::from("#[deprecated(note = \"use Handle\")]"),
    };
    let out = sys_struct(&allow("linux"), &decl, "struct Socket;");
    assert!(out.diagnostics.is_empty());
    assert_eq!(
        out.text,
        "#[cfg(target_os = \"linux\")]\nstruct Socket;\n#[cfg(target_os = \"linux\")]\n#[deprecated(note = \"use Handle\")]\ntype SocketLinux = Socket;"
    );
}

// The capability check re-applies the declaration's own `where` clause and
// erases lifetimes at the check site.
#[test]
fn capability_check_keeps_generics_abstract() {
    let decl = StructDecl {
        vis: String::new(),
        name: String::from("Holder"),
        generics: vec![
            GenericParam::Lifetime { name: String::from("a"), bounds: String::new() },
            GenericParam::Type { name: String::from("T"), bounds: String::new() },
        ],
        where_clause: String::from("where T: Clone"),
        deprecation: String::new(),
    };
    let item = "struct Holder<'a, T>(&'a T) where T: Clone;";
    let out = sys_struct(&format!("traits(Send), {}", allow("macos")), &decl, item);
    assert!(out.diagnostics.is_empty());
    let expected = format!(
        "#[cfg(target_os = \"macos\")]\n{item}\n#[cfg(target_os = \"macos\")]\nconst _: () = {{\n    fn _assert_traits<T: Send + ?Sized>() {{}}\n    fn _check<T>() where T: Clone {{ _assert_traits::<Holder<'_, T>>(); }}\n}};\n#[cfg(target_os = \"macos\")]\ntype HolderMacOS<'a, T> = Holder<'a, T>;",
        item = item,
    );
    assert_eq!(out.text, expected);
}

// A public re-export named `driver` with two platforms allowed: for each
// atom, the platform module carries the declared visibility, while the
// `driver` alias is emitted private.
#[test]
fn module_aliases_split_visibility() {
    let input = ModInput::Reexport {
        attrs: vec![],
        vis: String::from("pub"),
        leading_colon: false,
        tree: UseTreeShape::Name { ident: String::from("driver") },
    };
    let out = platform_mod(&allow("linux, windows"), &input);
    assert!(out.diagnostics.is_empty());
    assert_eq!(
        out.text,
        "#[cfg(target_os = \"linux\")]\npub mod linux;\n#[cfg(target_os = \"linux\")]\nuse linux as driver;\n#[cfg(target_os = \"windows\")]\npub mod windows;\n#[cfg(target_os = \"windows\")]\nuse windows as driver;"
    );
}

// A file-backed module declaration works the same way, carrying its
// attributes onto both generated declarations.
#[test]
fn module_declarations_are_expanded() {
    let input = ModInput::Module {
        attrs: vec![String::from("#[allow(dead_code)]")],
        vis: String::new(),
        is_unsafe: false,
        has_body: false,
        ident: String::from("driver"),
    };
    let out = platform_mod(&allow("macos"), &input);
    assert!(out.diagnostics.is_empty());
    assert_eq!(
        out.text,
        "#[cfg(target_os = \"macos\")]\n#[allow(dead_code)]\nmod macos;\n#[cfg(target_os = \"macos\")]\n#[allow(dead_code)]\nuse macos as driver;"
    );
}

// The unsupported module-alias shapes are each rejected with a diagnostic
// naming the shape, and nothing is generated for the declaration.
#[test]
fn unsupported_module_shapes_are_rejected() {
    let cases: Vec<(ModInput, &str, Anchor)> = vec![
        (
            ModInput::Reexport {
                attrs: vec![],
                vis: String::new(),
                leading_colon: true,
                tree: UseTreeShape::Name { ident: String::from("driver") },
            },
            "absolute paths are not supported on a re-export: use a local identifier",
            Anchor::UseLeadingColon,
        ),
        (
            ModInput::Reexport {
                attrs: vec![],
                vis: String::new(),
                leading_colon: false,
                tree: UseTreeShape::Path,
            },
            "a re-export of a nested path is not supported: use a single local identifier",
            Anchor::UseTree,
        ),
        (
            ModInput::Reexport {
                attrs: vec![],
                vis: String::new(),
                leading_colon: false,
                tree: UseTreeShape::Rename,
            },
            "a re-export with a rename is not supported: use a single local identifier",
            Anchor::UseTree,
        ),
        (
            ModInput::Reexport {
                attrs: vec![],
                vis: String::new(),
                leading_colon: false,
                tree: UseTreeShape::Glob,
            },
            "a glob re-export is not supported: use a single local identifier",
            Anchor::UseTree,
        ),
        (
            ModInput::Reexport {
                attrs: vec![],
                vis: String::new(),
                leading_colon: false,
                tree: UseTreeShape::Group,
            },
            "a grouped re-export is not supported: use a single local identifier",
            Anchor::UseTree,
        ),
        (
            ModInput::Module {
                attrs: vec![],
                vis: String::new(),
                is_unsafe: true,
                has_body: false,
                ident: String::from("driver"),
            },
            "an unsafe module declaration is not supported",
            Anchor::ModUnsafety,
        ),
        (
            ModInput::Module {
                attrs: vec![],
                vis: String::new(),
                is_unsafe: false,
                has_body: true,
                ident: String::from("driver"),
            },
            "a module with an inline body is not supported: declare it without one so the backing file can be swapped per platform",
            Anchor::ModDecl,
        ),
        (
            ModInput::Unrecognized,
            "expected a module declaration or a re-export of a single local identifier",
            Anchor::Item,
        ),
    ];
    for (input, msg, anchor) in cases {
        let out = platform_mod("", &input);
        assert_eq!(out.text, "");
        assert_eq!(out.diagnostics.len(), 1);
        assert_eq!(out.diagnostics[0].message, msg);
        assert_eq!(out.diagnostics[0].anchor, anchor);
    }
}
