use multisig_engine::managed_multi_args_vec::{ArgId, DynArg, DynArgInput, ManagedMultiArgVec};

struct ListLoader {
    args: Vec<Vec<u8>>,
    next: usize,
}

impl DynArgInput for ListLoader {
    fn has_next(&self) -> bool {
        self.next < self.args.len()
    }

    fn next_arg_input(&mut self) -> Vec<u8> {
        let arg = self.args[self.next].clone();
        self.next += 1;
        arg
    }
}

#[test]
fn dyn_load_keeps_the_loader_and_reads_nothing() {
    let loader = ListLoader { args: vec![vec![1], vec![2, 3]], next: 0 };
    let args: ManagedMultiArgVec<u64, ListLoader> = ManagedMultiArgVec::dyn_load(loader, ArgId(2));
    let mut loader = args.into_loader();
    assert_eq!(loader.next, 0);
    assert!(loader.has_next());
    assert_eq!(loader.next_arg_input(), vec![1u8]);
    assert_eq!(loader.next_arg_input(), vec![2u8, 3]);
    assert!(!loader.has_next());
}
