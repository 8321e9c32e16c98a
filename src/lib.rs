//! A conductance-based membrane simulation: the state history of a single neuron
//! membrane and the explicit time-stepping loop that extends it one sample at a time.

pub mod hodgkin_huxley;
