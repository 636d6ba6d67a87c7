use gobject_ffi::{
    c_error_value, from_c_borrowed, from_c_full, marshal_type_of, to_c_owned, CValue, MarshalType,
    NativeHeap, RVal, SemType,
};

#[test]
fn sentinel_table() {
    assert_eq!(c_error_value(&MarshalType::Unit), CValue::Int(0));
    assert_eq!(c_error_value(&MarshalType::Bool), CValue::Int(0));
    assert_eq!(c_error_value(&MarshalType::I8), CValue::Int(-1));
    assert_eq!(c_error_value(&MarshalType::I16), CValue::Int(-1));
    assert_eq!(c_error_value(&MarshalType::I32), CValue::Int(-1));
    assert_eq!(c_error_value(&MarshalType::I64), CValue::Int(-1));
    assert_eq!(c_error_value(&MarshalType::U8), CValue::Uint(0));
    assert_eq!(c_error_value(&MarshalType::U16), CValue::Uint(0));
    assert_eq!(c_error_value(&MarshalType::U32), CValue::Uint(0));
    assert_eq!(c_error_value(&MarshalType::U64), CValue::Uint(0));
    assert_eq!(c_error_value(&MarshalType::Text), CValue::NullPtr);
    assert_eq!(c_error_value(&MarshalType::Blob), CValue::NullPtr);
    assert_eq!(c_error_value(&MarshalType::TextList), CValue::NullPtr);
    assert_eq!(
        c_error_value(&MarshalType::Opt(Box::new(MarshalType::I32))),
        CValue::Int(-1)
    );
    assert_eq!(
        c_error_value(&MarshalType::Opt(Box::new(MarshalType::Text))),
        CValue::NullPtr
    );
}

#[test]
fn primitive_round_trips() {
    let mut heap = NativeHeap::new();
    let c = to_c_owned(&mut heap, &MarshalType::I32, RVal::I32(-5));
    assert_eq!(c, CValue::Int(-5));
    assert_eq!(from_c_full(&mut heap, &MarshalType::I32, c), RVal::I32(-5));
    assert_eq!(heap.len(), 0);

    let c = to_c_owned(&mut heap, &MarshalType::Bool, RVal::Bool(true));
    assert_eq!(c, CValue::Int(1));
    assert_eq!(from_c_borrowed(&heap, &MarshalType::Bool, c), RVal::Bool(true));

    let c = to_c_owned(&mut heap, &MarshalType::U64, RVal::U64(u64::MAX));
    assert_eq!(c, CValue::Uint(u64::MAX));
    assert_eq!(from_c_full(&mut heap, &MarshalType::U64, c), RVal::U64(u64::MAX));
}

#[test]
fn owned_text_round_trip_releases_exactly_once() {
    let mut heap = NativeHeap::new();
    let c = to_c_owned(&mut heap, &MarshalType::Text, RVal::Text(b"hello".to_vec()));
    assert_eq!(c, CValue::Ptr(0));
    // Exactly one cell was allocated and is live.
    assert_eq!(heap.len(), 1);
    assert_eq!(heap.live_count(), 1);
    // The consuming conversion yields the original value and releases the
    // intermediate representation exactly once: nothing stays live.
    let back = from_c_full(&mut heap, &MarshalType::Text, c);
    assert_eq!(back, RVal::Text(b"hello".to_vec()));
    assert_eq!(heap.len(), 1);
    assert_eq!(heap.live_count(), 0);
}

#[test]
fn borrowed_read_keeps_cell_live() {
    let mut heap = NativeHeap::new();
    let c = to_c_owned(&mut heap, &MarshalType::Blob, RVal::Blob(vec![1, 2, 3]));
    let back = from_c_borrowed(&heap, &MarshalType::Blob, c);
    assert_eq!(back, RVal::Blob(vec![1, 2, 3]));
    // Borrowing does not consume: the producer still owns the buffer.
    assert_eq!(heap.live_count(), 1);
}

#[test]
fn string_list_round_trip() {
    let mut heap = NativeHeap::new();
    let v = RVal::TextList(vec![b"one".to_vec(), b"two".to_vec()]);
    let c = to_c_owned(&mut heap, &MarshalType::TextList, v);
    let back = from_c_full(&mut heap, &MarshalType::TextList, c);
    assert_eq!(back, RVal::TextList(vec![b"one".to_vec(), b"two".to_vec()]));
    assert_eq!(heap.live_count(), 0);
}

#[test]
fn option_round_trips() {
    let mut heap = NativeHeap::new();
    let t = MarshalType::Opt(Box::new(MarshalType::I32));

    let c = to_c_owned(&mut heap, &t, RVal::Maybe(None));
    assert_eq!(c, CValue::Int(-1));
    assert_eq!(from_c_borrowed(&heap, &t, c), RVal::Maybe(None));

    let c = to_c_owned(&mut heap, &t, RVal::Maybe(Some(Box::new(RVal::I32(7)))));
    assert_eq!(c, CValue::Int(7));
    assert_eq!(
        from_c_borrowed(&heap, &t, c),
        RVal::Maybe(Some(Box::new(RVal::I32(7))))
    );

    let tp = MarshalType::Opt(Box::new(MarshalType::Text));
    let c = to_c_owned(&mut heap, &tp, RVal::Maybe(None));
    assert_eq!(c, CValue::NullPtr);
    let c = to_c_owned(&mut heap, &tp, RVal::Maybe(Some(Box::new(RVal::Text(b"x".to_vec())))));
    assert!(matches!(c, CValue::Ptr(_)));
    assert_eq!(
        from_c_full(&mut heap, &tp, c),
        RVal::Maybe(Some(Box::new(RVal::Text(b"x".to_vec()))))
    );
}

#[test]
fn option_sentinel_aliasing_decodes_as_absence() {
    // A present value equal to the inner type's sentinel is
    // indistinguishable from absence once it has crossed the boundary:
    // it decodes as absent. This is the documented behavior, however
    // surprising.
    let mut heap = NativeHeap::new();
    let t = MarshalType::Opt(Box::new(MarshalType::I32));
    let c = to_c_owned(&mut heap, &t, RVal::Maybe(Some(Box::new(RVal::I32(-1)))));
    assert_eq!(c, CValue::Int(-1));
    assert_eq!(from_c_borrowed(&heap, &t, c), RVal::Maybe(None));

    let tu = MarshalType::Opt(Box::new(MarshalType::U32));
    let c = to_c_owned(&mut heap, &tu, RVal::Maybe(Some(Box::new(RVal::U32(0)))));
    assert_eq!(c, CValue::Uint(0));
    assert_eq!(from_c_borrowed(&heap, &tu, c), RVal::Maybe(None));
}

#[test]
fn semantic_types_map_to_runtime_types() {
    assert_eq!(marshal_type_of(&SemType::Bool), Some(MarshalType::Bool));
    assert_eq!(marshal_type_of(&SemType::Str), Some(MarshalType::Text));
    assert_eq!(marshal_type_of(&SemType::Path), Some(MarshalType::Text));
    assert_eq!(marshal_type_of(&SemType::ByteVec), Some(MarshalType::Blob));
    assert_eq!(marshal_type_of(&SemType::Variant), Some(MarshalType::Blob));
    assert_eq!(marshal_type_of(&SemType::StrList), Some(MarshalType::TextList));
    assert_eq!(
        marshal_type_of(&SemType::Opt(Box::new(SemType::I32))),
        Some(MarshalType::Opt(Box::new(MarshalType::I32)))
    );
    assert_eq!(marshal_type_of(&SemType::MutRef(Box::new(SemType::I32))), None);
    assert_eq!(marshal_type_of(&SemType::Named(String::from("X"))), None);
}
