use escher::Arg;
use escher::GenericParam;
use escher::ImplParam;
use escher::rebind_mapping;

fn lifetime(name: &str) -> GenericParam {
    GenericParam::Lifetime { name: name.to_owned() }
}

fn type_param(name: &str) -> GenericParam {
    GenericParam::Type { name: name.to_owned() }
}

fn const_param(name: &str, ty: &str) -> GenericParam {
    GenericParam::Const { name: name.to_owned(), ty: ty.to_owned() }
}

fn named(name: &str) -> Arg {
    Arg::Named { name: name.to_owned() }
}

#[test]
fn rebind_no_params() {
    let m = rebind_mapping(&vec![]);
    assert_eq!(vec![ImplParam::Target], m.impl_params);
    assert!(m.type_args.is_empty());
    assert!(m.out_args.is_empty());
}

#[test]
fn rebind_single_lifetime() {
    let m = rebind_mapping(&vec![lifetime("this")]);
    assert_eq!(vec![ImplParam::Target], m.impl_params);
    assert_eq!(vec![Arg::Elided], m.type_args);
    assert_eq!(vec![Arg::Target], m.out_args);
}

#[test]
fn rebind_two_lifetimes() {
    // every lifetime is replaced by the one target lifetime
    let m = rebind_mapping(&vec![lifetime("a"), lifetime("b")]);
    assert_eq!(vec![ImplParam::Target], m.impl_params);
    assert_eq!(vec![Arg::Elided, Arg::Elided], m.type_args);
    assert_eq!(vec![Arg::Target, Arg::Target], m.out_args);
}

#[test]
fn rebind_full_parameter_list() {
    let params = vec![
        lifetime("this"),
        type_param("T"),
        type_param("U"),
        const_param("N", "usize"),
    ];
    let m = rebind_mapping(&params);

    assert_eq!(
        vec![
            ImplParam::Target,
            ImplParam::Outlives { name: "T".to_owned() },
            ImplParam::Outlives { name: "U".to_owned() },
            ImplParam::ConstDecl { name: "N".to_owned(), ty: "usize".to_owned() },
        ],
        m.impl_params
    );
    assert_eq!(
        vec![Arg::Elided, named("T"), named("U"), named("N")],
        m.type_args
    );
    assert_eq!(
        vec![Arg::Target, named("T"), named("U"), named("N")],
        m.out_args
    );
}

#[test]
fn rebind_groups_interleaved_params() {
    // arguments come out grouped: lifetimes, then type parameters, then
    // constant parameters, whatever the declaration order
    let params = vec![
        type_param("T"),
        const_param("N", "bool"),
        lifetime("a"),
        type_param("U"),
    ];
    let m = rebind_mapping(&params);

    assert_eq!(
        vec![Arg::Elided, named("T"), named("U"), named("N")],
        m.type_args
    );
    assert_eq!(
        vec![Arg::Target, named("T"), named("U"), named("N")],
        m.out_args
    );
}

#[test]
fn rebind_arity_matches() {
    let params = vec![
        lifetime("a"),
        lifetime("b"),
        type_param("T"),
        const_param("N", "usize"),
    ];
    let m = rebind_mapping(&params);
    assert_eq!(params.len(), m.type_args.len());
    assert_eq!(params.len(), m.out_args.len());
    assert!(m.out_args.iter().all(|a| *a != Arg::Elided));
}
