#![allow(dead_code)]

use rustacuda::memory::DeviceCopy;

fn check_device_copy<T: DeviceCopy>() {}

#[derive(Clone)]
struct ZeroSizedStruct;

impl DeviceCopy for ZeroSizedStruct {}

fn __verify_ZeroSizedStruct_can_implement_DeviceCopy(_value: &ZeroSizedStruct) {}

#[derive(Clone)]
struct TupleStruct(u64, u64);

impl DeviceCopy for TupleStruct {}

fn __verify_TupleStruct_can_implement_DeviceCopy(_value: &TupleStruct) {
    check_device_copy::<u64>();
    check_device_copy::<u64>();
}

#[derive(Clone)]
struct NormalStruct {
    x: u64,
    y: u64,
}

impl DeviceCopy for NormalStruct {}

fn __verify_NormalStruct_can_implement_DeviceCopy(_value: &NormalStruct) {
    check_device_copy::<u64>();
    check_device_copy::<u64>();
}

#[derive(Clone)]
struct ContainerStruct {
    a: NormalStruct,
    b: TupleStruct,
}

impl DeviceCopy for ContainerStruct {}

fn __verify_ContainerStruct_can_implement_DeviceCopy(_value: &ContainerStruct) {
    check_device_copy::<NormalStruct>();
    check_device_copy::<TupleStruct>();
}

#[derive(Clone)]
struct GenericStruct<T> {
    value: T,
}

impl<T: DeviceCopy> DeviceCopy for GenericStruct<T> {}

fn __verify_GenericStruct_can_implement_DeviceCopy<T: DeviceCopy>(_value: &GenericStruct<T>) {
    check_device_copy::<T>();
}

#[derive(Clone)]
enum TestEnum {
    Unit,
    Tuple(u64),
    Struct { x: u64, y: u64 },
    Container { a: NormalStruct, b: TupleStruct },
}

impl DeviceCopy for TestEnum {}

fn __verify_TestEnum_can_implement_DeviceCopy(_value: &TestEnum) {
    check_device_copy::<u64>();
    check_device_copy::<u64>();
    check_device_copy::<u64>();
    check_device_copy::<NormalStruct>();
    check_device_copy::<TupleStruct>();
}

#[derive(Clone)]
enum GenericEnum<T> {
    Unit,
    Generic { val: T },
}

impl<T: DeviceCopy> DeviceCopy for GenericEnum<T> {}

fn __verify_GenericEnum_can_implement_DeviceCopy<T: DeviceCopy>(_value: &GenericEnum<T>) {
    check_device_copy::<T>();
}

#[derive(Copy, Clone)]
union TestUnion {
    u: u64,
    i: i64,
}

impl DeviceCopy for TestUnion {}

fn __verify_TestUnion_can_implement_DeviceCopy(_value: &TestUnion) {
    check_device_copy::<u64>();
    check_device_copy::<i64>();
}

#[test]
fn test_hidden_functions() {
    __verify_ZeroSizedStruct_can_implement_DeviceCopy(&ZeroSizedStruct);
    __verify_TupleStruct_can_implement_DeviceCopy(&TupleStruct(0, 0));
    __verify_NormalStruct_can_implement_DeviceCopy(&NormalStruct { x: 0, y: 0 });
    __verify_ContainerStruct_can_implement_DeviceCopy(&ContainerStruct {
        a: NormalStruct { x: 0, y: 0 },
        b: TupleStruct(0, 0),
    });
    __verify_GenericStruct_can_implement_DeviceCopy(&GenericStruct { value: 0u64 });
    __verify_TestEnum_can_implement_DeviceCopy(&TestEnum::Unit);
    __verify_GenericEnum_can_implement_DeviceCopy::<u64>(&GenericEnum::Unit);
    __verify_TestUnion_can_implement_DeviceCopy(&TestUnion { u: 0u64 });
}
