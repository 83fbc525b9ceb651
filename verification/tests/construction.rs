use spinachflow::lattice::MaxRepr;
use spinachflow::op::latticeop::LatticeOp;
use spinachflow::op::mergeop::MergeOp;
use spinachflow::op::nullop::NullOp;
use spinachflow::op::splitop::Splitter;

#[test]
fn test_construction() {
    let op = NullOp::<MaxRepr<String>>::new();
    let op = LatticeOp::<_, MaxRepr<String>>::new(op, "Hi".to_owned());

    let splitter = Splitter::new(op);

    let split0 = splitter.add_split();
    let split0 = LatticeOp::<_, MaxRepr<String>>::new(split0, "Wah".to_owned());

    let split1 = splitter.add_split();
    let split1 = LatticeOp::<_, MaxRepr<String>>::new(split1, "Hah".to_owned());

    let merge = MergeOp::new(split0, split1);
    let _ = merge;
}
