use made_funicular_postzegel_io_router::demos::MyNr;

fn number_eater(_: MyNr) {}

#[test]
fn test() {
    let nr = MyNr { nr: 123 };
    number_eater(nr);
    number_eater(nr); // works because of Copy
}
