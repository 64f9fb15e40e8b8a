use wasmedge_sdk::{Func, FuncType, FuncTypeBuilder, ValType};

#[test]
fn test_func_signature() {
    // test signature with args and returns
    {
        let sig = FuncTypeBuilder::new()
            .with_args(vec![
                ValType::I32,
                ValType::I64,
                ValType::F32,
                ValType::F64,
                ValType::V128,
                ValType::FuncRef,
                ValType::ExternRef,
            ])
            .with_returns(vec![ValType::FuncRef, ValType::ExternRef, ValType::V128])
            .build();

        // check the arguments
        let result = sig.args();
        assert!(result.is_some());
        let args = result.unwrap();
        assert_eq!(
            args,
            &[
                ValType::I32,
                ValType::I64,
                ValType::F32,
                ValType::F64,
                ValType::V128,
                ValType::FuncRef,
                ValType::ExternRef,
            ]
        );

        // check the returns
        let result = sig.return_types();
        assert!(result.is_some());
        let returns = result.unwrap();
        assert_eq!(
            returns,
            &[ValType::FuncRef, ValType::ExternRef, ValType::V128]
        );
    }

    // test signature without args and returns
    {
        let sig = FuncTypeBuilder::new().build();
        assert_eq!(sig.args(), None);
        assert_eq!(sig.return_types(), None);
    }
}

#[test]
fn builder_single_arg_and_return() {
    let sig = FuncTypeBuilder::new()
        .with_arg(ValType::I64)
        .with_return(ValType::F32)
        .build();
    assert_eq!(sig.args(), Some(&[ValType::I64][..]));
    assert_eq!(sig.return_types(), Some(&[ValType::F32][..]));
}

#[test]
fn builder_last_list_wins() {
    let sig = FuncTypeBuilder::new()
        .with_args(vec![ValType::I32, ValType::I32])
        .with_arg(ValType::V128)
        .with_returns(vec![ValType::I64])
        .with_returns(vec![ValType::ExternRef, ValType::FuncRef])
        .build();
    assert_eq!(sig.args(), Some(&[ValType::V128][..]));
    assert_eq!(
        sig.return_types(),
        Some(&[ValType::ExternRef, ValType::FuncRef][..])
    );
}

#[test]
fn builder_order_of_args_and_returns_does_not_matter() {
    let a = FuncTypeBuilder::new()
        .with_args(vec![ValType::I32])
        .with_returns(vec![ValType::F64])
        .build();
    let b = FuncTypeBuilder::new()
        .with_returns(vec![ValType::F64])
        .with_args(vec![ValType::I32])
        .build();
    assert_eq!(a.args(), b.args());
    assert_eq!(a.return_types(), b.return_types());
}

#[test]
fn builder_only_returns_leaves_args_unset() {
    let sig = FuncTypeBuilder::new().with_return(ValType::I32).build();
    assert_eq!(sig.args(), None);
    assert_eq!(sig.return_types(), Some(&[ValType::I32][..]));
}

#[test]
fn builder_empty_lists_are_kept_as_empty() {
    let sig = FuncTypeBuilder::new()
        .with_args(vec![])
        .with_returns(vec![])
        .build();
    assert_eq!(sig.args(), Some(&[][..]));
    assert_eq!(sig.return_types(), Some(&[][..]));
}

#[test]
fn builder_default_is_empty() {
    let sig = FuncTypeBuilder::default().build();
    assert_eq!(sig.args(), None);
    assert_eq!(sig.return_types(), None);
}

#[test]
fn func_type_new_reads_back() {
    let t = FuncType::new(Some(vec![ValType::I32, ValType::F64]), None);
    assert_eq!(t.args(), Some(&[ValType::I32, ValType::F64][..]));
    assert_eq!(t.return_types(), None);
    let d = t.duplicate();
    assert_eq!(d.args(), Some(&[ValType::I32, ValType::F64][..]));
    assert_eq!(d.return_types(), None);
}

#[test]
fn wrap_hands_the_signature_to_the_engine() {
    let mut seen: Option<(Vec<ValType>, Vec<ValType>)> = None;
    let res: Result<Func<u32>, String> =
        Func::wrap(&[ValType::I32, ValType::I32], &[ValType::I32], |ty: &FuncType| {
            seen = Some((
                ty.args().unwrap().to_vec(),
                ty.return_types().unwrap().to_vec(),
            ));
            Ok(42)
        });
    let func = res.unwrap();
    assert_eq!(
        seen,
        Some((vec![ValType::I32, ValType::I32], vec![ValType::I32]))
    );
    assert_eq!(*func.handle(), 42);
    assert_eq!(func.name(), None);
    assert_eq!(func.mod_name(), None);
    assert_eq!(func.ty().args(), Some(&[ValType::I32, ValType::I32][..]));
    assert_eq!(func.ty().return_types(), Some(&[ValType::I32][..]));
}

#[test]
fn wrap_passes_on_the_engine_error() {
    let res: Result<Func<u32>, String> =
        Func::wrap(&[ValType::I64], &[], |_ty: &FuncType| Err("create failed".to_string()));
    assert_eq!(res.unwrap_err(), "create failed");
}

#[test]
fn wrap_with_type_keeps_the_given_type() {
    let ty = FuncTypeBuilder::new().with_arg(ValType::ExternRef).build();
    let res: Result<Func<&str>, ()> = Func::wrap_with_type(ty, |_ty: &FuncType| Ok("handle"));
    let func = res.unwrap();
    assert_eq!(*func.handle(), "handle");
    assert_eq!(func.ty().args(), Some(&[ValType::ExternRef][..]));
    assert_eq!(func.ty().return_types(), None);
    assert_eq!(func.name(), None);
    assert_eq!(func.mod_name(), None);
}

#[test]
fn wrap_with_type_passes_on_the_engine_error() {
    let ty = FuncTypeBuilder::new().build();
    let res: Result<Func<u8>, u32> = Func::wrap_with_type(ty, |_ty: &FuncType| Err(7));
    assert_eq!(res.unwrap_err(), 7);
}

#[test]
fn wrap_async_variants_build_the_same_record() {
    let res: Result<Func<u8>, ()> =
        Func::wrap_async_func(&[], &[ValType::V128], |_ty: &FuncType| Ok(1));
    let func = res.unwrap();
    assert_eq!(func.ty().args(), Some(&[][..]));
    assert_eq!(func.ty().return_types(), Some(&[ValType::V128][..]));

    let ty = FuncTypeBuilder::new().with_return(ValType::I32).build();
    let res: Result<Func<u8>, ()> = Func::wrap_async_func_with_type(ty, |_ty: &FuncType| Err(()));
    assert!(res.is_err());
}

#[test]
fn as_ref_keeps_the_type_and_converts_the_handle() {
    let res: Result<Func<u32>, ()> =
        Func::wrap(&[ValType::F32], &[ValType::F64], |_ty: &FuncType| Ok(9));
    let func = res.unwrap();
    let func_ref = func.as_ref(|h: &u32| u64::from(*h) * 2);
    assert_eq!(*func_ref.handle(), 18);
    assert_eq!(func_ref.ty().args(), Some(&[ValType::F32][..]));
    assert_eq!(func_ref.ty().return_types(), Some(&[ValType::F64][..]));
    let again = func.as_ref(|h: &u32| *h + 1);
    assert_eq!(*again.handle(), 10);
    assert_eq!(again.ty().args(), func.ty().args());
    assert_eq!(*func.handle(), 9);
}
