use gur::action::{Action, TryAction};

#[derive(Debug)]
struct Add(i32);

impl Action for Add {
    type State = i32;
    fn execute(&self, prev: Self::State) -> Self::State {
        prev + self.0
    }
}

#[test]
fn action_add() {
    let action = Add(1);

    let s = action.execute(0);

    assert_eq!(1, s);
}

#[derive(Debug)]
struct Append(char);

impl Action for Append {
    type State = String;
    fn execute(&self, mut prev: Self::State) -> Self::State {
        prev.push(self.0);
        prev
    }
}

#[test]
fn action_append() {
    let action = Append('d');

    let s = action.execute("appen".to_string());

    assert_eq!("append", s);
}

#[derive(Debug)]
struct OkAction(char);

impl TryAction for OkAction {
    type State = String;
    type Error = Box<dyn std::error::Error>;
    fn try_execute(&self, mut prev: Self::State) -> Result<Self::State, Self::Error> {
        prev.push(self.0);
        Ok(prev)
    }
}

#[test]
fn try_action_ok() {
    let action = OkAction('d');

    let s = action.try_execute("appen".to_string()).unwrap();

    assert_eq!("append", s);
}

#[derive(Debug)]
struct ErrAction;

impl TryAction for ErrAction {
    type State = i32;
    type Error = Box<dyn std::error::Error>;
    fn try_execute(&self, _: Self::State) -> Result<Self::State, Self::Error> {
        "NaN".parse::<i32>().map_err(|e| e.into())
    }
}

#[test]
fn try_action_err() {
    let action = ErrAction;

    let s = action.try_execute(0);

    assert!(s.is_err());
}
